//! The single-script embedded server: the PHP code it runs for each
//! request and the page it answers with. (Starting the Zend engine and
//! handing requests to its thread stays with the server.)

use vstd::prelude::*;
use crate::text::{decimal_signed, i64_to_string, push_str};

verus! {

/// A request handed to the PHP thread.
pub struct PhpRequest {
    pub uri: String,
    pub method: String,
}

/// The PHP thread's answer.
pub struct PhpResponse {
    pub status: u16,
    pub body: String,
}

/// The PHP code run for a request: it logs the method, the URI, the PHP
/// version and the memory in use.
pub open spec fn log_code_text(method: Seq<char>, uri: Seq<char>) -> Seq<char> {
    "\n                echo \"=== bakpiaRun Request Log ===\\n\";\n                echo \"Method: "@ + method + "\\n\";\n                echo \"URI: "@ + uri + "\\n\";\n                echo \"PHP Version: \" . phpversion() . \"\\n\";\n                echo \"Memory: \" . memory_get_usage() . \" bytes\\n\";\n                echo \"=============================\\n\";\n                "@
}

/// The PHP code run for a request (see `log_code_text`).
pub fn request_log_code(req: &PhpRequest) -> (r: String)
    ensures
        r@ == log_code_text(req.method@, req.uri@),
{
    let mut s = String::new();
    push_str(&mut s, "\n                echo \"=== bakpiaRun Request Log ===\\n\";\n                echo \"Method: ");
    push_str(&mut s, req.method.as_str());
    push_str(&mut s, "\\n\";\n                echo \"URI: ");
    push_str(&mut s, req.uri.as_str());
    push_str(&mut s, "\\n\";\n                echo \"PHP Version: \" . phpversion() . \"\\n\";\n                echo \"Memory: \" . memory_get_usage() . \" bytes\\n\";\n                echo \"=============================\\n\";\n                ");
    s
}

/// The welcome page answered after the code ran: the method and the URI
/// in their cards.
pub open spec fn welcome_page_text(method: Seq<char>, uri: Seq<char>) -> Seq<char> {
    "<!DOCTYPE html>\n        <html>\n        <head>\n            <title>bakpiaRun - PHP Embed Web Server</title>\n            <style>\n                body { \n                    font-family: 'Segoe UI', Tahoma, Geneva, Verdana, sans-serif; \n                    margin: 0; \n                    padding: 0; \n                    background: linear-gradient(135deg, #667eea 0%, #764ba2 100%);\n                    min-height: 100vh;\n                }\n                .container { \n                    max-width: 800px; \n                    margin: 50px auto; \n                    background: white; \n                    padding: 40px; \n                    border-radius: 12px; \n                    box-shadow: 0 10px 40px rgba(0,0,0,0.2);\n                }\n                h1 { \n                    color: #667eea; \n                    margin-top: 0;\n                    font-size: 2.5em;\n                }\n                .badge {\n                    display: inline-block;\n                    background: #27ae60;\n                    color: white;\n                    padding: 5px 15px;\n                    border-radius: 20px;\n                    font-size: 0.9em;\n                    margin-bottom: 20px;\n                }\n                .info-grid {\n                    display: grid;\n                    grid-template-columns: 1fr 1fr;\n                    gap: 20px;\n                    margin: 30px 0;\n                }\n                .info-card {\n                    background: #f8f9fa;\n                    padding: 20px;\n                    border-radius: 8px;\n                    border-left: 4px solid #667eea;\n                }\n                .info-label {\n                    font-weight: bold;\n                    color: #495057;\n                    font-size: 0.9em;\n                    text-transform: uppercase;\n                    letter-spacing: 0.5px;\n                }\n                .info-value {\n                    color: #212529;\n                    font-size: 1.2em;\n                    margin-top: 5px;\n                }\n                .tech-stack {\n                    background: #e9ecef;\n                    padding: 20px;\n                    border-radius: 8px;\n                    margin-top: 30px;\n                }\n                .tech-stack h3 {\n                    margin-top: 0;\n                    color: #495057;\n                }\n                .tech-list {\n                    display: flex;\n                    gap: 10px;\n                    flex-wrap: wrap;\n                }\n                .tech-tag {\n                    background: #667eea;\n                    color: white;\n                    padding: 8px 16px;\n                    border-radius: 20px;\n                    font-size: 0.9em;\n                }\n                .footer {\n                    margin-top: 30px;\n                    padding-top: 20px;\n                    border-top: 2px solid #e9ecef;\n                    color: #6c757d;\n                    font-size: 0.9em;\n                }\n            </style>\n        </head>\n        <body>\n            <div class=\"container\">\n                <span class=\"badge\">✅ PHP Executed Successfully</span>\n                <h1>🎉 bakpiaRun Web Server</h1>\n                <p>Web server PHP modern yang berjalan di atas Rust dengan performa tinggi!</p>\n                \n                <div class=\"info-grid\">\n                    <div class=\"info-card\">\n                        <div class=\"info-label\">Request Method</div>\n                        <div class=\"info-value\">"@ + method + "</div>\n                    </div>\n                    <div class=\"info-card\">\n                        <div class=\"info-label\">Request URI</div>\n                        <div class=\"info-value\">"@ + uri + "</div>\n                    </div>\n                    <div class=\"info-card\">\n                        <div class=\"info-label\">Server</div>\n                        <div class=\"info-value\">bakpiaRun/0.1.0</div>\n                    </div>\n                    <div class=\"info-card\">\n                        <div class=\"info-label\">Status</div>\n                        <div class=\"info-value\">200 OK</div>\n                    </div>\n                </div>\n        \n                <div class=\"tech-stack\">\n                    <h3>🛠️ Technology Stack</h3>\n                    <div class=\"tech-list\">\n                        <span class=\"tech-tag\">Rust</span>\n                        <span class=\"tech-tag\">Tokio (Async)</span>\n                        <span class=\"tech-tag\">Axum (HTTP)</span>\n                        <span class=\"tech-tag\">PHP 8.3 Embed</span>\n                        <span class=\"tech-tag\">Zend Engine</span>\n                    </div>\n                </div>\n        \n                <div class=\"footer\">\n                    <p><strong>📝 Catatan:</strong> PHP dieksekusi oleh Zend Engine dan output-nya dicatat di terminal server. \n                    Response HTML ini di-generate oleh Rust dan dikirim ke browser Anda.</p>\n                    <p><strong>🚀 Arsitektur:</strong> HTTP Request → Axum → PHP Worker Thread → Zend Engine → Response</p>\n                </div>\n            </div>\n        </body>\n        </html>"@
}

/// The welcome page (see `welcome_page_text`).
pub fn welcome_page(req: &PhpRequest) -> (r: String)
    ensures
        r@ == welcome_page_text(req.method@, req.uri@),
{
    let mut s = String::new();
    push_str(&mut s, "<!DOCTYPE html>\n        <html>\n        <head>\n            <title>bakpiaRun - PHP Embed Web Server</title>\n            <style>\n                body { \n                    font-family: 'Segoe UI', Tahoma, Geneva, Verdana, sans-serif; \n                    margin: 0; \n                    padding: 0; \n                    background: linear-gradient(135deg, #667eea 0%, #764ba2 100%);\n                    min-height: 100vh;\n                }\n                .container { \n                    max-width: 800px; \n                    margin: 50px auto; \n                    background: white; \n                    padding: 40px; \n                    border-radius: 12px; \n                    box-shadow: 0 10px 40px rgba(0,0,0,0.2);\n                }\n                h1 { \n                    color: #667eea; \n                    margin-top: 0;\n                    font-size: 2.5em;\n                }\n                .badge {\n                    display: inline-block;\n                    background: #27ae60;\n                    color: white;\n                    padding: 5px 15px;\n                    border-radius: 20px;\n                    font-size: 0.9em;\n                    margin-bottom: 20px;\n                }\n                .info-grid {\n                    display: grid;\n                    grid-template-columns: 1fr 1fr;\n                    gap: 20px;\n                    margin: 30px 0;\n                }\n                .info-card {\n                    background: #f8f9fa;\n                    padding: 20px;\n                    border-radius: 8px;\n                    border-left: 4px solid #667eea;\n                }\n                .info-label {\n                    font-weight: bold;\n                    color: #495057;\n                    font-size: 0.9em;\n                    text-transform: uppercase;\n                    letter-spacing: 0.5px;\n                }\n                .info-value {\n                    color: #212529;\n                    font-size: 1.2em;\n                    margin-top: 5px;\n                }\n                .tech-stack {\n                    background: #e9ecef;\n                    padding: 20px;\n                    border-radius: 8px;\n                    margin-top: 30px;\n                }\n                .tech-stack h3 {\n                    margin-top: 0;\n                    color: #495057;\n                }\n                .tech-list {\n                    display: flex;\n                    gap: 10px;\n                    flex-wrap: wrap;\n                }\n                .tech-tag {\n                    background: #667eea;\n                    color: white;\n                    padding: 8px 16px;\n                    border-radius: 20px;\n                    font-size: 0.9em;\n                }\n                .footer {\n                    margin-top: 30px;\n                    padding-top: 20px;\n                    border-top: 2px solid #e9ecef;\n                    color: #6c757d;\n                    font-size: 0.9em;\n                }\n            </style>\n        </head>\n        <body>\n            <div class=\"container\">\n                <span class=\"badge\">✅ PHP Executed Successfully</span>\n                <h1>🎉 bakpiaRun Web Server</h1>\n                <p>Web server PHP modern yang berjalan di atas Rust dengan performa tinggi!</p>\n                \n                <div class=\"info-grid\">\n                    <div class=\"info-card\">\n                        <div class=\"info-label\">Request Method</div>\n                        <div class=\"info-value\">");
    push_str(&mut s, req.method.as_str());
    push_str(&mut s, "</div>\n                    </div>\n                    <div class=\"info-card\">\n                        <div class=\"info-label\">Request URI</div>\n                        <div class=\"info-value\">");
    push_str(&mut s, req.uri.as_str());
    push_str(&mut s, "</div>\n                    </div>\n                    <div class=\"info-card\">\n                        <div class=\"info-label\">Server</div>\n                        <div class=\"info-value\">bakpiaRun/0.1.0</div>\n                    </div>\n                    <div class=\"info-card\">\n                        <div class=\"info-label\">Status</div>\n                        <div class=\"info-value\">200 OK</div>\n                    </div>\n                </div>\n        \n                <div class=\"tech-stack\">\n                    <h3>🛠️ Technology Stack</h3>\n                    <div class=\"tech-list\">\n                        <span class=\"tech-tag\">Rust</span>\n                        <span class=\"tech-tag\">Tokio (Async)</span>\n                        <span class=\"tech-tag\">Axum (HTTP)</span>\n                        <span class=\"tech-tag\">PHP 8.3 Embed</span>\n                        <span class=\"tech-tag\">Zend Engine</span>\n                    </div>\n                </div>\n        \n                <div class=\"footer\">\n                    <p><strong>📝 Catatan:</strong> PHP dieksekusi oleh Zend Engine dan output-nya dicatat di terminal server. \n                    Response HTML ini di-generate oleh Rust dan dikirim ke browser Anda.</p>\n                    <p><strong>🚀 Arsitektur:</strong> HTTP Request → Axum → PHP Worker Thread → Zend Engine → Response</p>\n                </div>\n            </div>\n        </body>\n        </html>");
    s
}

/// The body of the answer when the engine reports a failure code.
pub open spec fn error_body_text(result: int) -> Seq<char> {
    "<h1>❌ PHP Error</h1><p>Result: "@ + decimal_signed(result) + "</p>"@
}

/// The answer for the engine's result code: 200 with the welcome page on
/// success (0), else 500 with the code.
pub fn eval_response(result: i32, req: &PhpRequest) -> (r: PhpResponse)
    ensures
        result == 0 ==> r.status == 200 && r.body@ == welcome_page_text(req.method@, req.uri@),
        result != 0 ==> r.status == 500 && r.body@ == error_body_text(result as int),
{
    if result == 0 {
        PhpResponse { status: 200, body: welcome_page(req) }
    } else {
        let mut s = String::new();
        push_str(&mut s, "<h1>❌ PHP Error</h1><p>Result: ");
        let n = i64_to_string(result as i64);
        push_str(&mut s, n.as_str());
        push_str(&mut s, "</p>");
        PhpResponse { status: 500, body: s }
    }
}

/// The headers of the HTTP answer carrying the PHP thread's answer.
pub fn answer_headers() -> (r: Vec<(String, String)>)
    ensures
        crate::text::pair_texts(r@) == seq![
            ("Content-Type"@, "text/html; charset=utf-8"@),
            ("X-Powered-By"@, "bakpiaRun/0.1.0"@),
        ],
{
    let mut out: Vec<(String, String)> = Vec::new();
    crate::security::push_header(&mut out, "Content-Type", "text/html; charset=utf-8");
    crate::security::push_header(&mut out, "X-Powered-By", "bakpiaRun/0.1.0");
    assert(crate::text::pair_texts(out@) =~= seq![
        ("Content-Type"@, "text/html; charset=utf-8"@),
        ("X-Powered-By"@, "bakpiaRun/0.1.0"@),
    ]);
    out
}

} // verus!
