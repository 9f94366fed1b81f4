use vstd::prelude::*;

use vstd::string::{StrSliceExecFns, StringExecFns};

use crate::events::ReservationOutcome;

verus! {

/// The lower-case hexadecimal digit for a value below sixteen.
pub open spec fn hex_digit(d: int) -> char {
    if d == 0 {
        '0'
    } else if d == 1 {
        '1'
    } else if d == 2 {
        '2'
    } else if d == 3 {
        '3'
    } else if d == 4 {
        '4'
    } else if d == 5 {
        '5'
    } else if d == 6 {
        '6'
    } else if d == 7 {
        '7'
    } else if d == 8 {
        '8'
    } else if d == 9 {
        '9'
    } else if d == 10 {
        'a'
    } else if d == 11 {
        'b'
    } else if d == 12 {
        'c'
    } else if d == 13 {
        'd'
    } else if d == 14 {
        'e'
    } else {
        'f'
    }
}

/// How one character reads inside a JSON string literal: quote, backslash and
/// control characters are escaped, everything else stands as itself.
pub open spec fn escaped_char(c: char) -> Seq<char> {
    if c == '"' {
        seq!['\\', '"']
    } else if c == '\\' {
        seq!['\\', '\\']
    } else if c == '\u{8}' {
        seq!['\\', 'b']
    } else if c == '\u{c}' {
        seq!['\\', 'f']
    } else if c == '\n' {
        seq!['\\', 'n']
    } else if c == '\r' {
        seq!['\\', 'r']
    } else if c == '\t' {
        seq!['\\', 't']
    } else if (c as u32) < 32 {
        seq!['\\', 'u', '0', '0', hex_digit(c as int / 16), hex_digit(c as int % 16)]
    } else {
        seq![c]
    }
}

/// A text escaped for use inside a JSON string literal.
pub open spec fn json_escaped(s: Seq<char>) -> Seq<char>
    decreases s.len(),
{
    if s.len() == 0 {
        Seq::empty()
    } else {
        escaped_char(s.first()) + json_escaped(s.drop_first())
    }
}

proof fn lemma_json_escaped_snoc(s: Seq<char>, c: char)
    ensures
        json_escaped(s.push(c)) =~= json_escaped(s) + escaped_char(c),
    decreases s.len(),
{
    if s.len() == 0 {
        assert(s.push(c).first() == c);
        assert(s.push(c).drop_first() =~= Seq::<char>::empty());
        assert(json_escaped(Seq::<char>::empty()) == Seq::<char>::empty());
        assert(json_escaped(s) == Seq::<char>::empty());
    } else {
        assert(s.push(c).first() == s.first());
        assert(s.push(c).drop_first() =~= s.drop_first().push(c));
        lemma_json_escaped_snoc(s.drop_first(), c);
    }
}

pub(crate) fn hex_digit_char(d: u32) -> (c: char)
    requires
        d < 16,
    ensures
        c == hex_digit(d as int),
{
    if d == 0 {
        '0'
    } else if d == 1 {
        '1'
    } else if d == 2 {
        '2'
    } else if d == 3 {
        '3'
    } else if d == 4 {
        '4'
    } else if d == 5 {
        '5'
    } else if d == 6 {
        '6'
    } else if d == 7 {
        '7'
    } else if d == 8 {
        '8'
    } else if d == 9 {
        '9'
    } else if d == 10 {
        'a'
    } else if d == 11 {
        'b'
    } else if d == 12 {
        'c'
    } else if d == 13 {
        'd'
    } else if d == 14 {
        'e'
    } else {
        'f'
    }
}

/// Relies on `String::from_iter` over `char` (std): the string holding
/// exactly the given characters in order.
#[verifier::external_body]
pub(crate) fn chars_to_string(cs: &Vec<char>) -> (r: String)
    ensures
        r@ == cs@,
{
    cs.iter().collect()
}

/// The text escaped for use inside a JSON string literal.
fn escape_json_text(s: &String) -> (r: String)
    ensures
        r@ == json_escaped(s@),
{
    let text = s.as_str();
    let n = text.unicode_len();
    let mut out: Vec<char> = Vec::new();
    let mut i: usize = 0;
    while i < n
        invariant
            n == text@.len(),
            text@ == s@,
            i <= n,
            out@ == json_escaped(s@.take(i as int)),
        decreases n - i,
    {
        let c = text.get_char(i);
        if c == '"' {
            out.push('\\');
            out.push('"');
        } else if c == '\\' {
            out.push('\\');
            out.push('\\');
        } else if c == '\u{8}' {
            out.push('\\');
            out.push('b');
        } else if c == '\u{c}' {
            out.push('\\');
            out.push('f');
        } else if c == '\n' {
            out.push('\\');
            out.push('n');
        } else if c == '\r' {
            out.push('\\');
            out.push('r');
        } else if c == '\t' {
            out.push('\\');
            out.push('t');
        } else if (c as u32) < 32 {
            out.push('\\');
            out.push('u');
            out.push('0');
            out.push('0');
            out.push(hex_digit_char(c as u32 / 16));
            out.push(hex_digit_char(c as u32 % 16));
        } else {
            out.push(c);
        }
        proof {
            lemma_json_escaped_snoc(s@.take(i as int), c);
            assert(s@.take(i + 1 as int) =~= s@.take(i as int).push(c));
            assert(out@ =~= json_escaped(s@.take(i as int)) + escaped_char(c));
        }
        i += 1;
    }
    proof {
        assert(s@.take(n as int) =~= s@);
    }
    chars_to_string(&out)
}

/// The wire form of a successful reservation outcome.
pub open spec fn reserved_payload(order_id: Seq<char>, user_id: Seq<char>, ts: Seq<char>) -> Seq<
    char,
> {
    "{\"type\":\"InventoryReservedEvent\",\"orderId\":\""@ + json_escaped(order_id)
        + "\",\"userId\":\""@ + json_escaped(user_id) + "\",\"timestamp\":\""@ + json_escaped(ts)
        + "\"}"@
}

/// The wire form of a failed reservation outcome.
pub open spec fn failed_payload(
    order_id: Seq<char>,
    user_id: Seq<char>,
    reason: Seq<char>,
    ts: Seq<char>,
) -> Seq<char> {
    "{\"type\":\"InventoryReservationFailedEvent\",\"orderId\":\""@ + json_escaped(order_id)
        + "\",\"userId\":\""@ + json_escaped(user_id) + "\",\"reason\":\""@ + json_escaped(reason)
        + "\",\"timestamp\":\""@ + json_escaped(ts) + "\"}"@
}

/// The wire form of any reservation outcome.
pub open spec fn outcome_payload(o: ReservationOutcome) -> Seq<char> {
    match o {
        ReservationOutcome::Reserved { order_id, user_id, timestamp } => reserved_payload(
            order_id@,
            user_id@,
            timestamp@,
        ),
        ReservationOutcome::Failed { order_id, user_id, reason, timestamp } => failed_payload(
            order_id@,
            user_id@,
            reason@,
            timestamp@,
        ),
    }
}

/// One message ready for the outbound topic: the order identifier as the
/// partition key and the outcome event as the JSON payload.
pub struct OutboundMessage {
    pub key: String,
    pub payload: String,
}

/// The outcome publisher's serialization step: renders an outcome to its wire
/// form, keyed by the order identifier. Handing the message to the transport
/// is the caller's affair; a send failure does not reach back into the
/// pipeline.
pub fn render_outcome(o: &ReservationOutcome) -> (msg: OutboundMessage)
    ensures
        msg.key@ == o.spec_order_id(),
        msg.payload@ == outcome_payload(*o),
{
    match o {
        ReservationOutcome::Reserved { order_id, user_id, timestamp } => {
            let mut p = String::from_str("{\"type\":\"InventoryReservedEvent\",\"orderId\":\"");
            p.append(escape_json_text(order_id).as_str());
            p.append("\",\"userId\":\"");
            p.append(escape_json_text(user_id).as_str());
            p.append("\",\"timestamp\":\"");
            p.append(escape_json_text(timestamp).as_str());
            p.append("\"}");
            OutboundMessage { key: order_id.clone(), payload: p }
        },
        ReservationOutcome::Failed { order_id, user_id, reason, timestamp } => {
            let mut p = String::from_str(
                "{\"type\":\"InventoryReservationFailedEvent\",\"orderId\":\"",
            );
            p.append(escape_json_text(order_id).as_str());
            p.append("\",\"userId\":\"");
            p.append(escape_json_text(user_id).as_str());
            p.append("\",\"reason\":\"");
            p.append(escape_json_text(reason).as_str());
            p.append("\",\"timestamp\":\"");
            p.append(escape_json_text(timestamp).as_str());
            p.append("\"}");
            OutboundMessage { key: order_id.clone(), payload: p }
        },
    }
}

} // verus!
