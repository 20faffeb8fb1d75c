//! The background-job handlers: which handler a task goes to, what each
//! handler reads from its payload, and the results it reports. (Running a
//! shell command or a PHP script, and waiting, stay with the server.)

use vstd::prelude::*;
use crate::text::{push_str, str_eq};

verus! {

/// The text fields of a job's payload: each key with its string value
/// (fields that are not strings are left out), in the payload's order.
pub struct PayloadText {
    pub entries: Vec<(String, String)>,
}

/// The string value of a key among the fields: the first field of that
/// key.
pub open spec fn field(es: Seq<(String, String)>, key: Seq<char>) -> Option<Seq<char>>
    decreases es.len(),
{
    if es.len() == 0 {
        None
    } else if es[0].0@ == key {
        Some(es[0].1@)
    } else {
        field(es.drop_first(), key)
    }
}

/// A field's value, or the default when the field is missing.
pub open spec fn field_or(es: Seq<(String, String)>, key: Seq<char>, default: Seq<char>) -> Seq<char> {
    match field(es, key) {
        Some(v) => v,
        None => default,
    }
}

impl PayloadText {
    /// The string value of a key (see `field`).
    pub fn get(&self, key: &str) -> (r: Option<&str>)
        ensures
            match r {
                Some(v) => field(self.entries@, key@) == Some(v@),
                None => field(self.entries@, key@) is None,
            },
    {
        let n = self.entries.len();
        assert(self.entries@.skip(0) =~= self.entries@);
        for i in 0..n
            invariant
                n == self.entries@.len(),
                field(self.entries@, key@) == field(self.entries@.skip(i as int), key@),
        {
            let ghost rest = self.entries@.skip(i as int);
            assert(rest[0] == self.entries@[i as int]);
            assert(rest.drop_first() =~= self.entries@.skip(i + 1));
            if str_eq(self.entries[i].0.as_str(), key) {
                return Some(self.entries[i].1.as_str());
            }
        }
        assert(self.entries@.skip(n as int) =~= Seq::<(String, String)>::empty());
        None
    }

    /// A field's value, or the default when the field is missing.
    pub fn get_or<'a>(&'a self, key: &str, default: &'a str) -> (r: &'a str)
        ensures
            r@ == field_or(self.entries@, key@, default@),
    {
        match self.get(key) {
            Some(v) => v,
            None => default,
        }
    }
}

/// What the welcome-email handler reports.
pub struct EmailOutcome {
    pub to: String,
    pub name: String,
    pub message: String,
}

/// The welcome-email handler.
pub struct SendWelcomeEmailHandler;

impl SendWelcomeEmailHandler {
    /// The handler's report for a payload: the address (`to`, default
    /// `unknown@example.com`), the name (`name`, default `User`) and the
    /// message `Welcome email sent to <address>`.
    pub fn outcome(payload: &PayloadText) -> (r: EmailOutcome)
        ensures
            r.to@ == field_or(payload.entries@, "to"@, "unknown@example.com"@),
            r.name@ == field_or(payload.entries@, "name"@, "User"@),
            r.message@ == "Welcome email sent to "@ + r.to@,
    {
        let to = payload.get_or("to", "unknown@example.com");
        let name = payload.get_or("name", "User");
        let mut message = String::new();
        push_str(&mut message, "Welcome email sent to ");
        push_str(&mut message, to);
        EmailOutcome { to: to.to_string(), name: name.to_string(), message }
    }
}

/// What the report handler reports.
pub struct ReportOutcome {
    pub report_type: String,
    pub message: String,
    pub file_size: String,
}

/// The report handler.
pub struct GenerateReportHandler;

impl GenerateReportHandler {
    /// The handler's report for a payload: the report type (`type`, default
    /// `general`), the message `<type> report generated successfully`, and
    /// the file size `2.5 MB`.
    pub fn outcome(payload: &PayloadText) -> (r: ReportOutcome)
        ensures
            r.report_type@ == field_or(payload.entries@, "type"@, "general"@),
            r.message@ == r.report_type@ + " report generated successfully"@,
            r.file_size@ == "2.5 MB"@,
    {
        let t = payload.get_or("type", "general");
        let mut message = String::new();
        push_str(&mut message, t);
        push_str(&mut message, " report generated successfully");
        ReportOutcome { report_type: t.to_string(), message, file_size: "2.5 MB".to_string() }
    }
}

/// The work the generic handler does for a payload.
pub enum GenericMethod {
    /// Run a command with `sh -c`.
    Shell { command: String },
    /// Run a PHP script with the payload as its argument.
    Php { script: String },
    /// Answer a (simulated) HTTP request.
    Http { url: String, method: String },
    /// Log the payload.
    Log,
    /// A custom task, by name.
    Custom { task_name: String },
}

/// The generic handler.
pub struct GenericHandler;

/// The generic handler's decision for a payload: by `method` (default
/// `log`), the work with the field it needs, or the error for a missing
/// field or an unknown method.
pub open spec fn generic_plan(es: Seq<(String, String)>) -> Result<GenericMethod, Seq<char>> {
    let m = field_or(es, "method"@, "log"@);
    if m == "shell"@ {
        match field(es, "command"@) {
            Some(c) => Ok(GenericMethod::Shell { command: string_of(c) }),
            None => Err("Missing 'command' in payload"@),
        }
    } else if m == "php"@ {
        match field(es, "script"@) {
            Some(s) => Ok(GenericMethod::Php { script: string_of(s) }),
            None => Err("Missing 'script' in payload"@),
        }
    } else if m == "http"@ {
        match field(es, "url"@) {
            Some(u) => Ok(
                GenericMethod::Http {
                    url: string_of(u),
                    method: string_of(field_or(es, "http_method"@, "GET"@)),
                },
            ),
            None => Err("Missing 'url' in payload"@),
        }
    } else if m == "log"@ {
        Ok(GenericMethod::Log)
    } else if m == "custom"@ {
        Ok(GenericMethod::Custom { task_name: string_of(field_or(es, "task_name"@, "unknown"@)) })
    } else {
        Err("Unknown method: "@ + m)
    }
}

/// The string whose text is `s`.
pub open spec fn string_of(s: Seq<char>) -> String {
    choose|t: String| t@ == s
}

/// Two decisions agree when they name the same work on the same texts, or
/// the same error text.
pub open spec fn same_plan(a: Result<GenericMethod, String>, b: Result<GenericMethod, Seq<char>>) -> bool {
    match (a, b) {
        (Ok(GenericMethod::Shell { command: x }), Ok(GenericMethod::Shell { command: y })) => x@ == y@,
        (Ok(GenericMethod::Php { script: x }), Ok(GenericMethod::Php { script: y })) => x@ == y@,
        (
            Ok(GenericMethod::Http { url: x, method: mx }),
            Ok(GenericMethod::Http { url: y, method: my }),
        ) => x@ == y@ && mx@ == my@,
        (Ok(GenericMethod::Log), Ok(GenericMethod::Log)) => true,
        (Ok(GenericMethod::Custom { task_name: x }), Ok(GenericMethod::Custom { task_name: y })) => x@
            == y@,
        (Err(e), Err(f)) => e@ == f,
        _ => false,
    }
}

impl GenericHandler {
    /// Decides the work for a payload (see `generic_plan`).
    pub fn plan(payload: &PayloadText) -> (r: Result<GenericMethod, String>)
        ensures
            same_plan(r, generic_plan(payload.entries@)),
    {
        let ghost es = payload.entries@;
        let m = payload.get_or("method", "log");
        proof {
            reveal_strlit("shell");
            reveal_strlit("php");
            reveal_strlit("http");
            reveal_strlit("log");
            reveal_strlit("custom");
        }
        if str_eq(m, "shell") {
            match payload.get("command") {
                Some(c) => Ok(GenericMethod::Shell { command: c.to_string() }),
                None => Err("Missing 'command' in payload".to_string()),
            }
        } else if str_eq(m, "php") {
            match payload.get("script") {
                Some(s) => Ok(GenericMethod::Php { script: s.to_string() }),
                None => Err("Missing 'script' in payload".to_string()),
            }
        } else if str_eq(m, "http") {
            match payload.get("url") {
                Some(u) => {
                    let method = payload.get_or("http_method", "GET");
                    Ok(GenericMethod::Http { url: u.to_string(), method: method.to_string() })
                },
                None => Err("Missing 'url' in payload".to_string()),
            }
        } else if str_eq(m, "log") {
            Ok(GenericMethod::Log)
        } else if str_eq(m, "custom") {
            let t = payload.get_or("task_name", "unknown");
            Ok(GenericMethod::Custom { task_name: t.to_string() })
        } else {
            let mut e = String::new();
            push_str(&mut e, "Unknown method: ");
            push_str(&mut e, m);
            Err(e)
        }
    }
}

/// The message of a processed custom task.
pub fn custom_task_message(task_name: &str) -> (r: String)
    ensures
        r@ == "Custom task '"@ + task_name@ + "' processed"@,
{
    let mut s = String::new();
    push_str(&mut s, "Custom task '");
    push_str(&mut s, task_name);
    push_str(&mut s, "' processed");
    s
}

/// The handler a task goes to, by name: the last one registered under
/// that name, if any.
pub open spec fn registered<H>(es: Seq<(String, H)>, task: Seq<char>) -> Option<H>
    decreases es.len(),
{
    if es.len() == 0 {
        None
    } else if es.last().0@ == task {
        Some(es.last().1)
    } else {
        registered(es.drop_last(), task)
    }
}

/// Registering a handler under a task name makes it the handler of that
/// task and leaves every other task's handler as it was.
pub proof fn lemma_register_then_lookup<H>(es: Seq<(String, H)>, name: String, h: H, other: Seq<char>)
    requires
        other != name@,
    ensures
        registered(es.push((name, h)), name@) == Some(h),
        registered(es.push((name, h)), other) == registered(es, other),
{
    assert(es.push((name, h)).drop_last() =~= es);
}

/// The handlers by task name, with the handler for every other task.
pub struct HandlerRegistry<H> {
    pub handlers: Vec<(String, H)>,
    pub default_handler: H,
}

/// The handlers of the standard registry.
#[derive(Clone, Copy, Debug, PartialEq, Eq)]
pub enum HandlerKind {
    WelcomeEmail,
    Report,
    Generic,
}

impl<H> HandlerRegistry<H> {
    /// A registry with no task registered.
    pub fn with_default(default_handler: H) -> (r: Self)
        ensures
            r.default_handler == default_handler,
            forall|t: Seq<char>| #[trigger] registered(r.handlers@, t) is None,
    {
        HandlerRegistry { handlers: Vec::new(), default_handler }
    }

    /// Registers a handler for a task name, in place of any earlier one.
    pub fn register(&mut self, task_name: &str, handler: H)
        ensures
            final(self).default_handler == old(self).default_handler,
            registered(final(self).handlers@, task_name@) == Some(handler),
            forall|t: Seq<char>|
                t != task_name@ ==> #[trigger] registered(final(self).handlers@, t) == registered(
                    old(self).handlers@,
                    t,
                ),
    {
        self.handlers.push((task_name.to_string(), handler));
        proof {
            assert(self.handlers@.drop_last() =~= old(self).handlers@);
        }
    }

    /// The handler for a task: the one registered under its name, else the
    /// default.
    pub fn handler_for(&self, task_name: &str) -> (r: &H)
        ensures
            *r == (match registered(self.handlers@, task_name@) {
                Some(h) => h,
                None => self.default_handler,
            }),
    {
        let n = self.handlers.len();
        let mut i = n;
        assert(self.handlers@.take(n as int) =~= self.handlers@);
        while i > 0
            invariant
                i <= n == self.handlers@.len(),
                registered(self.handlers@, task_name@) == registered(
                    self.handlers@.take(i as int),
                    task_name@,
                ),
            decreases i,
        {
            let ghost pre = self.handlers@.take(i as int);
            assert(pre.last() == self.handlers@[i - 1]);
            assert(pre.drop_last() =~= self.handlers@.take(i - 1));
            if str_eq(self.handlers[i - 1].0.as_str(), task_name) {
                return &self.handlers[i - 1].1;
            }
            i = i - 1;
        }
        &self.default_handler
    }
}

impl HandlerRegistry<HandlerKind> {
    /// The standard registry: `send_welcome_email` and `generate_report`
    /// have their handlers, every other task goes to the generic one.
    pub fn new() -> (r: Self)
        ensures
            r.default_handler == HandlerKind::Generic,
            registered(r.handlers@, "send_welcome_email"@) == Some(HandlerKind::WelcomeEmail),
            registered(r.handlers@, "generate_report"@) == Some(HandlerKind::Report),
            forall|t: Seq<char>|
                t != "send_welcome_email"@ && t != "generate_report"@ ==> #[trigger] registered(
                    r.handlers@,
                    t,
                ) is None,
    {
        proof {
            reveal_strlit("send_welcome_email");
            reveal_strlit("generate_report");
            assert("send_welcome_email"@ != "generate_report"@) by {
                assert("send_welcome_email"@.len() != "generate_report"@.len());
            }
        }
        let mut r = HandlerRegistry::with_default(HandlerKind::Generic);
        r.register("send_welcome_email", HandlerKind::WelcomeEmail);
        r.register("generate_report", HandlerKind::Report);
        r
    }
}

} // verus!
