//! Builders for MySQL client/server protocol packets: length-encoded
//! integers and strings, the packet header, and the OK, ERR, EOF, column
//! count, column definition and text-row packets.

use vstd::prelude::*;
use crate::text::{decimal, decimal_signed, i64_to_string, u64_to_string, utf8};

verus! {

/// The `k` least significant bytes of `n`, least significant first.
pub open spec fn le_bytes(n: nat, k: nat) -> Seq<u8>
    decreases k,
{
    if k == 0 {
        Seq::<u8>::empty()
    } else {
        seq![(n % 256) as u8] + le_bytes(n / 256, (k - 1) as nat)
    }
}

/// The MySQL length-encoded integer of `n`.
pub open spec fn lenenc_int_spec(n: u64) -> Seq<u8> {
    if n < 251 {
        seq![n as u8]
    } else if n < 65536 {
        seq![0xfcu8] + le_bytes(n as nat, 2)
    } else if n < 16777216 {
        seq![0xfdu8] + le_bytes(n as nat, 3)
    } else {
        seq![0xfeu8] + le_bytes(n as nat, 8)
    }
}

/// A length-encoded string: the length as a length-encoded integer, then the bytes.
pub open spec fn lenenc_str_spec(data: Seq<u8>) -> Seq<u8> {
    lenenc_int_spec(data.len() as u64) + data
}

/// A packet: 3-byte little-endian payload length, sequence id, payload.
/// Only the low 24 bits of the length are kept.
pub open spec fn packet_spec(seq_id: u8, payload: Seq<u8>) -> Seq<u8> {
    le_bytes(payload.len(), 3) + seq![seq_id] + payload
}

/// Status flags `SERVER_STATUS_AUTOCOMMIT` followed by a zero warning count.
pub open spec fn status_and_warnings() -> Seq<u8> {
    seq![0x02u8, 0x00u8, 0x00u8, 0x00u8]
}

/// Payload of an OK packet.
pub open spec fn ok_payload(affected_rows: u64, last_insert_id: u64) -> Seq<u8> {
    seq![0x00u8] + lenenc_int_spec(affected_rows) + lenenc_int_spec(last_insert_id)
        + status_and_warnings()
}

/// The bytes of the SQL state marker `#HY000`.
pub open spec fn sql_state_hy000() -> Seq<u8> {
    seq![0x23u8, 0x48u8, 0x59u8, 0x30u8, 0x30u8, 0x30u8]
}

/// Payload of an ERR packet with error code `code` and message bytes `msg`.
pub open spec fn error_payload(code: u16, msg: Seq<u8>) -> Seq<u8> {
    seq![0xffu8, (code % 256) as u8, (code / 256) as u8] + sql_state_hy000() + msg
}

/// Payload of an EOF packet.
pub open spec fn eof_payload() -> Seq<u8> {
    seq![0xfeu8, 0x00u8, 0x00u8, 0x02u8, 0x00u8]
}

/// Packet framing reads back: a packet is four header bytes and the
/// payload; the first three hold the payload's length, least significant
/// byte first, and the fourth the sequence id.
pub proof fn lemma_packet_read_back(seq_id: u8, payload: Seq<u8>)
    requires
        payload.len() < 0x100_0000,
    ensures
        packet_spec(seq_id, payload).len() == payload.len() + 4,
        packet_spec(seq_id, payload)[0] + 256 * packet_spec(seq_id, payload)[1] + 65536
            * packet_spec(seq_id, payload)[2] == payload.len(),
        packet_spec(seq_id, payload)[3] == seq_id,
        packet_spec(seq_id, payload).subrange(4, payload.len() + 4int) == payload,
{
    let n = payload.len();
    reveal_with_fuel(le_bytes, 4);
    let h = le_bytes(n, 3);
    assert(h =~= seq![(n % 256) as u8, ((n / 256) % 256) as u8, (((n / 256) / 256) % 256) as u8]);
    let p = packet_spec(seq_id, payload);
    assert(p.subrange(4, n + 4int) =~= payload);
    assert((n % 256) + 256 * ((n / 256) % 256) + 65536 * (((n / 256) / 256) % 256) == n) by (nonlinear_arith)
        requires
            n < 0x100_0000,
    ;
}

/// An ERR payload reads back: the marker `0xff`, the error code (least
/// significant byte first), the SQL state `#HY000`, then the message.
pub proof fn lemma_error_payload_read_back(code: u16, msg: Seq<u8>)
    ensures
        error_payload(code, msg)[0] == 0xff,
        error_payload(code, msg)[1] + 256 * error_payload(code, msg)[2] == code,
        error_payload(code, msg).subrange(3, 9) == seq![0x23u8, 0x48u8, 0x59u8, 0x30u8, 0x30u8, 0x30u8],
        error_payload(code, msg).subrange(9, msg.len() + 9int) == msg,
{
    let e = error_payload(code, msg);
    assert(e.subrange(3, 9) =~= seq![0x23u8, 0x48u8, 0x59u8, 0x30u8, 0x30u8, 0x30u8]);
    assert(e.subrange(9, msg.len() + 9int) =~= msg);
}

/// The column types of the protocol, as the backend reports them.
#[allow(non_camel_case_types)]
#[derive(Clone, Copy, Debug, PartialEq, Eq)]
pub enum ColumnType {
    MYSQL_TYPE_DECIMAL,
    MYSQL_TYPE_TINY,
    MYSQL_TYPE_SHORT,
    MYSQL_TYPE_LONG,
    MYSQL_TYPE_FLOAT,
    MYSQL_TYPE_DOUBLE,
    MYSQL_TYPE_NULL,
    MYSQL_TYPE_TIMESTAMP,
    MYSQL_TYPE_LONGLONG,
    MYSQL_TYPE_INT24,
    MYSQL_TYPE_DATE,
    MYSQL_TYPE_TIME,
    MYSQL_TYPE_DATETIME,
    MYSQL_TYPE_YEAR,
    MYSQL_TYPE_NEWDATE,
    MYSQL_TYPE_VARCHAR,
    MYSQL_TYPE_BIT,
    MYSQL_TYPE_TIMESTAMP2,
    MYSQL_TYPE_DATETIME2,
    MYSQL_TYPE_TIME2,
    MYSQL_TYPE_TYPED_ARRAY,
    MYSQL_TYPE_UNKNOWN,
    MYSQL_TYPE_JSON,
    MYSQL_TYPE_NEWDECIMAL,
    MYSQL_TYPE_ENUM,
    MYSQL_TYPE_SET,
    MYSQL_TYPE_TINY_BLOB,
    MYSQL_TYPE_MEDIUM_BLOB,
    MYSQL_TYPE_LONG_BLOB,
    MYSQL_TYPE_BLOB,
    MYSQL_TYPE_VAR_STRING,
    MYSQL_TYPE_STRING,
    MYSQL_TYPE_GEOMETRY,
}

/// The type id that the proxy reports for a column of type `t`.
pub open spec fn column_type_code(t: ColumnType) -> u8 {
    match t {
        ColumnType::MYSQL_TYPE_TINY => 1,
        ColumnType::MYSQL_TYPE_SHORT => 2,
        ColumnType::MYSQL_TYPE_LONG => 3,
        ColumnType::MYSQL_TYPE_FLOAT => 4,
        ColumnType::MYSQL_TYPE_DOUBLE => 5,
        ColumnType::MYSQL_TYPE_NULL => 6,
        ColumnType::MYSQL_TYPE_LONGLONG => 8,
        ColumnType::MYSQL_TYPE_INT24 => 9,
        ColumnType::MYSQL_TYPE_DATE | ColumnType::MYSQL_TYPE_NEWDATE => 10,
        ColumnType::MYSQL_TYPE_TIME => 11,
        ColumnType::MYSQL_TYPE_DATETIME | ColumnType::MYSQL_TYPE_TIMESTAMP => 12,
        ColumnType::MYSQL_TYPE_YEAR => 13,
        ColumnType::MYSQL_TYPE_VARCHAR | ColumnType::MYSQL_TYPE_VAR_STRING => 15,
        ColumnType::MYSQL_TYPE_BIT => 16,
        ColumnType::MYSQL_TYPE_JSON => 245,
        ColumnType::MYSQL_TYPE_NEWDECIMAL => 246,
        ColumnType::MYSQL_TYPE_ENUM => 247,
        ColumnType::MYSQL_TYPE_SET => 248,
        ColumnType::MYSQL_TYPE_BLOB | ColumnType::MYSQL_TYPE_TINY_BLOB
        | ColumnType::MYSQL_TYPE_MEDIUM_BLOB | ColumnType::MYSQL_TYPE_LONG_BLOB => 252,
        ColumnType::MYSQL_TYPE_STRING => 253,
        ColumnType::MYSQL_TYPE_GEOMETRY => 255,
        _ => 253,
    }
}

/// The column type ids written into column definitions are the MySQL
/// protocol's own: `TINY` 1, `SHORT` 2, `LONG` 3, `FLOAT` 4, `DOUBLE` 5,
/// `NULL` 6, `LONGLONG` 8, `INT24` 9, and so on; the types without an id of
/// their own in this table are announced as strings (253). In particular
/// the integer types keep distinct ids, so a `BIGINT` column is never
/// announced as an `INT`.
pub proof fn lemma_column_type_ids(t: ColumnType)
    ensures
        t == ColumnType::MYSQL_TYPE_TINY ==> column_type_code(t) == 1,
        t == ColumnType::MYSQL_TYPE_SHORT ==> column_type_code(t) == 2,
        t == ColumnType::MYSQL_TYPE_LONG ==> column_type_code(t) == 3,
        t == ColumnType::MYSQL_TYPE_FLOAT ==> column_type_code(t) == 4,
        t == ColumnType::MYSQL_TYPE_DOUBLE ==> column_type_code(t) == 5,
        t == ColumnType::MYSQL_TYPE_NULL ==> column_type_code(t) == 6,
        t == ColumnType::MYSQL_TYPE_LONGLONG ==> column_type_code(t) == 8,
        t == ColumnType::MYSQL_TYPE_INT24 ==> column_type_code(t) == 9,
        t == ColumnType::MYSQL_TYPE_DATE ==> column_type_code(t) == 10,
        t == ColumnType::MYSQL_TYPE_NEWDATE ==> column_type_code(t) == 10,
        t == ColumnType::MYSQL_TYPE_TIME ==> column_type_code(t) == 11,
        t == ColumnType::MYSQL_TYPE_DATETIME ==> column_type_code(t) == 12,
        t == ColumnType::MYSQL_TYPE_TIMESTAMP ==> column_type_code(t) == 12,
        t == ColumnType::MYSQL_TYPE_YEAR ==> column_type_code(t) == 13,
        t == ColumnType::MYSQL_TYPE_VARCHAR ==> column_type_code(t) == 15,
        t == ColumnType::MYSQL_TYPE_VAR_STRING ==> column_type_code(t) == 15,
        t == ColumnType::MYSQL_TYPE_BIT ==> column_type_code(t) == 16,
        t == ColumnType::MYSQL_TYPE_JSON ==> column_type_code(t) == 245,
        t == ColumnType::MYSQL_TYPE_NEWDECIMAL ==> column_type_code(t) == 246,
        t == ColumnType::MYSQL_TYPE_ENUM ==> column_type_code(t) == 247,
        t == ColumnType::MYSQL_TYPE_SET ==> column_type_code(t) == 248,
        t == ColumnType::MYSQL_TYPE_BLOB ==> column_type_code(t) == 252,
        t == ColumnType::MYSQL_TYPE_TINY_BLOB ==> column_type_code(t) == 252,
        t == ColumnType::MYSQL_TYPE_MEDIUM_BLOB ==> column_type_code(t) == 252,
        t == ColumnType::MYSQL_TYPE_LONG_BLOB ==> column_type_code(t) == 252,
        t == ColumnType::MYSQL_TYPE_STRING ==> column_type_code(t) == 253,
        t == ColumnType::MYSQL_TYPE_GEOMETRY ==> column_type_code(t) == 255,
        t == ColumnType::MYSQL_TYPE_DECIMAL ==> column_type_code(t) == 253,
        t == ColumnType::MYSQL_TYPE_TIMESTAMP2 ==> column_type_code(t) == 253,
        t == ColumnType::MYSQL_TYPE_DATETIME2 ==> column_type_code(t) == 253,
        t == ColumnType::MYSQL_TYPE_TIME2 ==> column_type_code(t) == 253,
        t == ColumnType::MYSQL_TYPE_TYPED_ARRAY ==> column_type_code(t) == 253,
        t == ColumnType::MYSQL_TYPE_UNKNOWN ==> column_type_code(t) == 253,
{
}

/// Distinct integer column types get distinct type ids.
pub proof fn lemma_integer_type_ids_distinct(a: ColumnType, b: ColumnType)
    requires
        a is MYSQL_TYPE_TINY || a is MYSQL_TYPE_SHORT || a is MYSQL_TYPE_LONG || a is MYSQL_TYPE_INT24
            || a is MYSQL_TYPE_LONGLONG,
        b is MYSQL_TYPE_TINY || b is MYSQL_TYPE_SHORT || b is MYSQL_TYPE_LONG || b is MYSQL_TYPE_INT24
            || b is MYSQL_TYPE_LONGLONG,
        a != b,
    ensures
        column_type_code(a) != column_type_code(b),
{
    lemma_column_type_ids(a);
    lemma_column_type_ids(b);
}

/// A value of a result row, as the backend hands it over. A floating-point
/// cell carries its decimal text (as `to_string` renders it) and its
/// IEEE-754 bit pattern.
#[derive(Debug)]
pub enum Value {
    Null,
    Bytes(Vec<u8>),
    Int(i64),
    UInt(u64),
    Float(Vec<u8>, u32),
    Double(Vec<u8>, u64),
    Other,
}

/// The text-protocol encoding of one cell.
pub open spec fn text_cell(v: Value) -> Seq<u8> {
    match v {
        Value::Null => seq![0xfbu8],
        Value::Bytes(b) => lenenc_str_spec(b@),
        Value::Int(i) => lenenc_str_spec(utf8(decimal_signed(i as int))),
        Value::UInt(u) => lenenc_str_spec(utf8(decimal(u as nat))),
        Value::Float(text, _) => lenenc_str_spec(text@),
        Value::Double(text, _) => lenenc_str_spec(text@),
        Value::Other => lenenc_str_spec(seq![0x3fu8]),
    }
}

/// Concatenation of the encodings of the cells of a row.
pub open spec fn text_row(values: Seq<Value>) -> Seq<u8>
    decreases values.len(),
{
    if values.len() == 0 {
        Seq::<u8>::empty()
    } else {
        text_row(values.drop_last()) + text_cell(values.last())
    }
}

/// Payload of a column definition packet for column `name` of type `t`.
pub open spec fn column_def_payload(name: Seq<u8>, type_code: u8) -> Seq<u8> {
    lenenc_str_spec(seq![0x64u8, 0x65u8, 0x66u8]) + lenenc_str_spec(Seq::<u8>::empty())
        + lenenc_str_spec(Seq::<u8>::empty()) + lenenc_str_spec(Seq::<u8>::empty())
        + lenenc_str_spec(name) + lenenc_str_spec(name) + seq![0x0cu8, 0x21u8, 0x00u8]
        + seq![0xffu8, 0xffu8, 0xffu8, 0xffu8] + seq![type_code] + seq![
        0x00u8,
        0x00u8,
        0x00u8,
        0x00u8,
        0x00u8,
    ]
}

/// Appends the `k` least significant bytes of `n` to `out`.
pub fn push_le_bytes(out: &mut Vec<u8>, n: u64, k: usize)
    ensures
        final(out)@ == old(out)@ + le_bytes(n as nat, k as nat),
    decreases k,
{
    if k > 0 {
        out.push((n % 256) as u8);
        push_le_bytes(out, n / 256, k - 1);
        proof {
            assert(le_bytes(n as nat, k as nat) == seq![(n % 256) as u8] + le_bytes(
                (n / 256) as nat,
                (k - 1) as nat,
            ));
            assert(old(out)@.push((n % 256) as u8) + le_bytes((n / 256) as nat, (k - 1) as nat)
                =~= old(out)@ + le_bytes(n as nat, k as nat));
        }
    } else {
        assert(old(out)@ + le_bytes(n as nat, 0) =~= old(out)@);
    }
}

/// Appends all of `data` to `out`.
fn push_all(out: &mut Vec<u8>, data: &[u8])
    ensures
        final(out)@ == old(out)@ + data@,
{
    out.extend_from_slice(data);
}

/// Appends the length-encoded integer of `n` to `out`.
pub fn push_lenenc_int(out: &mut Vec<u8>, n: u64)
    ensures
        final(out)@ == old(out)@ + lenenc_int_spec(n),
{
    if n < 251 {
        out.push(n as u8);
        assert(old(out)@.push(n as u8) =~= old(out)@ + seq![n as u8]);
    } else if n < 65536 {
        out.push(0xfc);
        push_le_bytes(out, n, 2);
        assert(old(out)@.push(0xfcu8) + le_bytes(n as nat, 2) =~= old(out)@ + lenenc_int_spec(n));
    } else if n < 16777216 {
        out.push(0xfd);
        push_le_bytes(out, n, 3);
        assert(old(out)@.push(0xfdu8) + le_bytes(n as nat, 3) =~= old(out)@ + lenenc_int_spec(n));
    } else {
        out.push(0xfe);
        push_le_bytes(out, n, 8);
        assert(old(out)@.push(0xfeu8) + le_bytes(n as nat, 8) =~= old(out)@ + lenenc_int_spec(n));
    }
}

/// Appends the length-encoded string of `data` to `out`.
pub fn push_lenenc_str(out: &mut Vec<u8>, data: &[u8])
    ensures
        final(out)@ == old(out)@ + lenenc_str_spec(data@),
{
    push_lenenc_int(out, data.len() as u64);
    push_all(out, data);
    assert(old(out)@ + lenenc_int_spec(data@.len() as u64) + data@ =~= old(out)@
        + lenenc_str_spec(data@));
}

/// Builds a length-encoded integer.
pub fn lenenc_int(len: u64) -> (r: Vec<u8>)
    ensures
        r@ == lenenc_int_spec(len),
{
    let mut v: Vec<u8> = Vec::new();
    push_lenenc_int(&mut v, len);
    assert(Seq::<u8>::empty() + lenenc_int_spec(len) =~= lenenc_int_spec(len));
    v
}

/// Builds a length-encoded string.
pub fn lenenc_str(data: &[u8]) -> (r: Vec<u8>)
    ensures
        r@ == lenenc_str_spec(data@),
{
    let mut v: Vec<u8> = Vec::new();
    push_lenenc_str(&mut v, data);
    assert(Seq::<u8>::empty() + lenenc_str_spec(data@) =~= lenenc_str_spec(data@));
    v
}

/// Wraps a payload in a packet header (3-byte length, sequence id).
pub fn build_packet(seq_id: u8, payload: &[u8]) -> (r: Vec<u8>)
    ensures
        r@ == packet_spec(seq_id, payload@),
{
    let len = payload.len();
    let mut packet: Vec<u8> = Vec::new();
    push_le_bytes(&mut packet, len as u64, 3);
    packet.push(seq_id);
    push_all(&mut packet, payload);
    assert(Seq::<u8>::empty() + le_bytes(len as nat, 3) =~= le_bytes(len as nat, 3));
    assert(le_bytes(len as nat, 3).push(seq_id) + payload@ =~= packet_spec(seq_id, payload@));
    packet
}

/// Builds an OK packet.
pub fn build_ok_packet(seq_id: u8, affected_rows: u64, last_insert_id: u64) -> (r: Vec<u8>)
    ensures
        r@ == packet_spec(seq_id, ok_payload(affected_rows, last_insert_id)),
{
    let mut payload: Vec<u8> = vec![0x00];
    push_lenenc_int(&mut payload, affected_rows);
    push_lenenc_int(&mut payload, last_insert_id);
    payload.push(0x02);
    payload.push(0x00);
    payload.push(0x00);
    payload.push(0x00);
    assert(payload@ =~= ok_payload(affected_rows, last_insert_id));
    build_packet(seq_id, &payload)
}

/// Builds an ERR packet carrying `code`, SQL state `HY000` and `msg`.
pub fn build_error_packet(seq_id: u8, code: u16, msg: &str) -> (r: Vec<u8>)
    ensures
        r@ == packet_spec(seq_id, error_payload(code, utf8(msg@))),
{
    let mut payload: Vec<u8> = vec![0xff];
    payload.push((code % 256) as u8);
    payload.push((code / 256) as u8);
    payload.push(0x23);
    payload.push(0x48);
    payload.push(0x59);
    payload.push(0x30);
    payload.push(0x30);
    payload.push(0x30);
    push_all(&mut payload, msg.as_bytes());
    assert(payload@ =~= error_payload(code, utf8(msg@)));
    build_packet(seq_id, &payload)
}

/// Builds an EOF packet.
pub fn build_eof_packet(seq_id: u8) -> (r: Vec<u8>)
    ensures
        r@ == packet_spec(seq_id, eof_payload()),
{
    let payload: Vec<u8> = vec![0xfe, 0x00, 0x00, 0x02, 0x00];
    assert(payload@ =~= eof_payload());
    build_packet(seq_id, &payload)
}

/// Builds the packet that announces the number of columns of a result set.
pub fn build_column_count_packet(seq_id: u8, count: u64) -> (r: Vec<u8>)
    ensures
        r@ == packet_spec(seq_id, lenenc_int_spec(count)),
{
    let payload = lenenc_int(count);
    build_packet(seq_id, &payload)
}

/// Maps a column type to the type id written in column definitions.
pub fn map_column_type(t: ColumnType) -> (r: u8)
    ensures
        r == column_type_code(t),
{
    match t {
        ColumnType::MYSQL_TYPE_TINY => 1,
        ColumnType::MYSQL_TYPE_SHORT => 2,
        ColumnType::MYSQL_TYPE_LONG => 3,
        ColumnType::MYSQL_TYPE_FLOAT => 4,
        ColumnType::MYSQL_TYPE_DOUBLE => 5,
        ColumnType::MYSQL_TYPE_NULL => 6,
        ColumnType::MYSQL_TYPE_LONGLONG => 8,
        ColumnType::MYSQL_TYPE_INT24 => 9,
        ColumnType::MYSQL_TYPE_DATE | ColumnType::MYSQL_TYPE_NEWDATE => 10,
        ColumnType::MYSQL_TYPE_TIME => 11,
        ColumnType::MYSQL_TYPE_DATETIME | ColumnType::MYSQL_TYPE_TIMESTAMP => 12,
        ColumnType::MYSQL_TYPE_YEAR => 13,
        ColumnType::MYSQL_TYPE_VARCHAR | ColumnType::MYSQL_TYPE_VAR_STRING => 15,
        ColumnType::MYSQL_TYPE_BIT => 16,
        ColumnType::MYSQL_TYPE_JSON => 245,
        ColumnType::MYSQL_TYPE_NEWDECIMAL => 246,
        ColumnType::MYSQL_TYPE_ENUM => 247,
        ColumnType::MYSQL_TYPE_SET => 248,
        ColumnType::MYSQL_TYPE_BLOB | ColumnType::MYSQL_TYPE_TINY_BLOB
        | ColumnType::MYSQL_TYPE_MEDIUM_BLOB | ColumnType::MYSQL_TYPE_LONG_BLOB => 252,
        ColumnType::MYSQL_TYPE_STRING => 253,
        ColumnType::MYSQL_TYPE_GEOMETRY => 255,
        _ => 253,
    }
}

/// Builds the payload of a column definition for a column named `name`.
pub fn column_def_payload_bytes(name: &[u8], type_code: u8) -> (r: Vec<u8>)
    ensures
        r@ == column_def_payload(name@, type_code),
{
    let catalog: Vec<u8> = vec![0x64, 0x65, 0x66];
    let empty: Vec<u8> = Vec::new();
    let mut payload: Vec<u8> = Vec::new();
    push_lenenc_str(&mut payload, &catalog);
    push_lenenc_str(&mut payload, &empty);
    push_lenenc_str(&mut payload, &empty);
    push_lenenc_str(&mut payload, &empty);
    push_lenenc_str(&mut payload, name);
    push_lenenc_str(&mut payload, name);
    payload.push(0x0c);
    payload.push(0x21);
    payload.push(0x00);
    payload.push(0xff);
    payload.push(0xff);
    payload.push(0xff);
    payload.push(0xff);
    payload.push(type_code);
    payload.push(0x00);
    payload.push(0x00);
    payload.push(0x00);
    payload.push(0x00);
    payload.push(0x00);
    assert(payload@ =~= column_def_payload(name@, type_code));
    payload
}

/// Builds a column definition packet.
pub fn build_column_def_packet(seq_id: u8, name: &str, col_type: ColumnType) -> (r: Vec<u8>)
    ensures
        r@ == packet_spec(seq_id, column_def_payload(utf8(name@), column_type_code(col_type))),
{
    let payload = column_def_payload_bytes(name.as_bytes(), map_column_type(col_type));
    build_packet(seq_id, &payload)
}

/// Appends the text-protocol encoding of one cell to `out`.
pub fn push_text_cell(out: &mut Vec<u8>, v: &Value)
    ensures
        final(out)@ == old(out)@ + text_cell(*v),
{
    match v {
        Value::Null => {
            out.push(0xfb);
            assert(old(out)@.push(0xfbu8) =~= old(out)@ + text_cell(*v));
        },
        Value::Bytes(b) => push_lenenc_str(out, b.as_slice()),
        Value::Int(i) => {
            let s = i64_to_string(*i);
            push_lenenc_str(out, s.as_str().as_bytes());
        },
        Value::UInt(u) => {
            let s = u64_to_string(*u);
            push_lenenc_str(out, s.as_str().as_bytes());
        },
        Value::Float(text, _) => push_lenenc_str(out, text.as_slice()),
        Value::Double(text, _) => push_lenenc_str(out, text.as_slice()),
        Value::Other => {
            let q: Vec<u8> = vec![0x3f];
            push_lenenc_str(out, &q);
        },
    }
}

/// Builds a text-protocol result row packet.
pub fn build_row_packet(seq_id: u8, values: &[Value]) -> (r: Vec<u8>)
    ensures
        r@ == packet_spec(seq_id, text_row(values@)),
{
    let mut payload: Vec<u8> = Vec::new();
    let n = values.len();
    for i in 0..n
        invariant
            n == values@.len(),
            payload@ == text_row(values@.take(i as int)),
    {
        push_text_cell(&mut payload, &values[i]);
        proof {
            let t = values@.take(i + 1);
            assert(t.drop_last() =~= values@.take(i as int));
            assert(t.last() == values@[i as int]);
        }
    }
    proof {
        assert(values@.take(n as int) =~= values@);
    }
    build_packet(seq_id, &payload)
}

} // verus!
