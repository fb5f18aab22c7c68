use vstd::prelude::*;
use vstd::string::StrSliceExecFns;
use vstd::string::StringExecFns;

use crate::event::Event;

verus! {

/// The hexadecimal digit for a value below sixteen, lower case.
pub open spec fn hex_digit(n: int) -> char {
    if n == 0 {
        '0'
    } else if n == 1 {
        '1'
    } else if n == 2 {
        '2'
    } else if n == 3 {
        '3'
    } else if n == 4 {
        '4'
    } else if n == 5 {
        '5'
    } else if n == 6 {
        '6'
    } else if n == 7 {
        '7'
    } else if n == 8 {
        '8'
    } else if n == 9 {
        '9'
    } else if n == 10 {
        'a'
    } else if n == 11 {
        'b'
    } else if n == 12 {
        'c'
    } else if n == 13 {
        'd'
    } else if n == 14 {
        'e'
    } else {
        'f'
    }
}

/// How one character appears inside a JSON string literal: quotes and
/// backslashes get a backslash escape, control characters a `\u00XX` escape,
/// everything else stands as it is.
pub open spec fn escaped_char(c: char) -> Seq<char> {
    if c == '"' {
        seq!['\\', '"']
    } else if c == '\\' {
        seq!['\\', '\\']
    } else if (c as u32) < 32 {
        seq!['\\', 'u', '0', '0', hex_digit((c as u32) as int / 16), hex_digit((c as u32) as int % 16)]
    } else {
        seq![c]
    }
}

/// A whole character sequence escaped for a JSON string literal.
pub open spec fn escaped(s: Seq<char>) -> Seq<char>
    decreases s.len(),
{
    if s.len() == 0 {
        Seq::empty()
    } else {
        escaped(s.drop_last()) + escaped_char(s.last())
    }
}

/// A JSON string literal: the escaped text between double quotes.
pub open spec fn json_string(s: Seq<char>) -> Seq<char> {
    seq!['"'] + escaped(s) + seq!['"']
}

fn hex_digit_char(n: u32) -> (c: char)
    requires
        n < 16,
    ensures
        c == hex_digit(n as int),
{
    match n {
        0 => '0',
        1 => '1',
        2 => '2',
        3 => '3',
        4 => '4',
        5 => '5',
        6 => '6',
        7 => '7',
        8 => '8',
        9 => '9',
        10 => 'a',
        11 => 'b',
        12 => 'c',
        13 => 'd',
        14 => 'e',
        _ => 'f',
    }
}

/// Relies on String::push: appends exactly the one character.
#[verifier::external_body]
fn push_char(out: &mut String, c: char)
    ensures
        final(out)@ == old(out)@ + seq![c],
{
    out.push(c)
}

/// Appends the escaped form of `s` to `out`.
fn append_escaped(out: &mut String, s: &str)
    ensures
        final(out)@ == old(out)@ + escaped(s@),
{
    let n = s.unicode_len();
    let mut i: usize = 0;
    while i < n
        invariant
            i <= n,
            n == s@.len(),
            out@ == old(out)@ + escaped(s@.take(i as int)),
        decreases n - i,
    {
        let c = s.get_char(i);
        let code = c as u32;
        if c == '"' {
            out.append("\\\"");
        } else if c == '\\' {
            out.append("\\\\");
        } else if code < 32 {
            out.append("\\u00");
            push_char(out, hex_digit_char(code / 16));
            push_char(out, hex_digit_char(code % 16));
        } else {
            push_char(out, c);
        }
        i = i + 1;
        proof {
            reveal_strlit("\\\"");
            reveal_strlit("\\\\");
            reveal_strlit("\\u00");
            assert(s@.take(i as int).drop_last() =~= s@.take(i as int - 1));
            assert(s@.take(i as int).last() == s@[i as int - 1]);
            if c == '"' {
                assert("\\\""@ =~= escaped_char(c));
            } else if c == '\\' {
                assert("\\\\"@ =~= escaped_char(c));
            } else if code < 32 {
                assert("\\u00"@ + seq![hex_digit(code as int / 16)] + seq![
                    hex_digit(code as int % 16),
                ] =~= escaped_char(c));
            }
            assert(out@ =~= old(out)@ + escaped(s@.take(i as int)));
        }
    }
    proof {
        assert(s@.take(n as int) =~= s@);
    }
}

/// Whether a record's payload can be spliced into the batch body: either
/// absent, or framed as a JSON object (an opening brace first, a closing
/// brace last). Anything else cannot encode, and the batch carrying it is
/// dropped.
///
/// This is a framing check, not a parse: what stands between the braces is
/// spliced verbatim, so the resulting body is valid JSON exactly when the
/// payload is a canonical JSON object text — object members with no
/// surrounding whitespace, as a JSON encoder emits them. A payload that is
/// framed but not canonical (say `"{ }"`) still encodes, to exactly the bytes
/// `batch_json` states; the remote endpoint is then the one to refuse it.
pub open spec fn payload_ok(e: Event) -> bool {
    match e.properties {
        Option::Some(p) => p@.len() >= 2 && p@[0] == '{' && p@.last() == '}',
        Option::None => true,
    }
}

/// The members a payload contributes inside the record's `properties`
/// object: what stands between its braces, behind a comma. An absent or
/// empty payload contributes nothing.
pub open spec fn payload_members(e: Event) -> Seq<char> {
    match e.properties {
        Option::Some(p) => if p@.len() > 2 {
            seq![','] + p@.subrange(1, p@.len() - 1)
        } else {
            Seq::empty()
        },
        Option::None => Seq::empty(),
    }
}

/// A JSON boolean.
pub open spec fn bool_text(b: bool) -> Seq<char> {
    if b {
        "true"@
    } else {
        "false"@
    }
}

/// One record as it stands in the batch body: the event name, the identity
/// when there is one, and the properties object — the person-profile marker
/// (set exactly when the record carries an identity), the client identifier,
/// and the caller's payload members spliced in behind them.
pub open spec fn record_json(e: Event) -> Seq<char> {
    "{\"event\":"@ + json_string(e.name@) + (if e.distinct_id@.len() > 0 {
        ",\"distinct_id\":"@ + json_string(e.distinct_id@)
    } else {
        Seq::empty()
    }) + ",\"properties\":{\"$process_person_profile\":"@ + bool_text(e.distinct_id@.len() > 0)
        + ",\"$lib_name\":\"sanglier\""@ + payload_members(e) + "}}"@
}

/// The records of a batch, comma-separated, in their enqueue order.
pub open spec fn items_json(events: Seq<Event>) -> Seq<char>
    decreases events.len(),
{
    if events.len() == 0 {
        Seq::empty()
    } else if events.len() == 1 {
        record_json(events[0])
    } else {
        items_json(events.drop_last()) + seq![','] + record_json(events.last())
    }
}

pub open spec fn all_payloads_ok(events: Seq<Event>) -> bool {
    forall|i: int| 0 <= i < events.len() ==> payload_ok(#[trigger] events[i])
}

/// The whole batch body that goes out in one POST: the API key and the
/// records, in enqueue order.
pub open spec fn batch_json(api_key: Seq<char>, events: Seq<Event>) -> Seq<char> {
    "{\"api_key\":"@ + json_string(api_key) + ",\"batch\":["@ + items_json(events) + "]}"@
}

/// The one way a batch fails to encode: a record whose payload is not a JSON
/// object text. The index points at the first such record.
#[derive(PartialEq, Eq, Structural, Debug)]
pub struct EncodeError {
    pub index: usize,
}

/// Appends the JSON string literal for `s` to `out`.
fn append_json_string(out: &mut String, s: &str)
    ensures
        final(out)@ == old(out)@ + json_string(s@),
{
    push_char(out, '"');
    append_escaped(out, s);
    push_char(out, '"');
    proof {
        assert(old(out)@ + seq!['"'] + escaped(s@) + seq!['"'] =~= old(out)@ + json_string(s@));
    }
}

fn payload_is_ok(e: &Event) -> (ok: bool)
    ensures
        ok == payload_ok(*e),
{
    match &e.properties {
        Option::Some(p) => {
            let n = p.as_str().unicode_len();
            n >= 2 && p.as_str().get_char(0) == '{' && p.as_str().get_char(n - 1) == '}'
        },
        Option::None => true,
    }
}

/// Appends one record to the body being built.
fn append_record(out: &mut String, e: &Event)
    requires
        payload_ok(*e),
    ensures
        final(out)@ == old(out)@ + record_json(*e),
{
    out.append("{\"event\":");
    append_json_string(out, e.name.as_str());
    let anonymous = e.distinct_id.as_str().unicode_len() == 0;
    if !anonymous {
        out.append(",\"distinct_id\":");
        append_json_string(out, e.distinct_id.as_str());
    }
    out.append(",\"properties\":{\"$process_person_profile\":");
    if !anonymous {
        out.append("true");
    } else {
        out.append("false");
    }
    out.append(",\"$lib_name\":\"sanglier\"");
    match &e.properties {
        Option::Some(p) => {
            let n = p.as_str().unicode_len();
            if n > 2 {
                push_char(out, ',');
                let inner = p.as_str().substring_char(1, n - 1);
                out.append(inner);
            }
        },
        Option::None => {},
    }
    out.append("}}");
    proof {
        assert(out@ =~= old(out)@ + record_json(*e));
    }
}

/// Encodes one batch into the body of the POST that delivers it.
///
/// Succeeds exactly when every record's payload can encode (`payload_ok`:
/// absent or framed as a JSON object); the body is then `batch_json` of the
/// key and the records, byte for byte. Fails on the first record whose
/// payload cannot encode, naming its position. The body is valid JSON
/// whenever every payload is a canonical JSON object text; see `payload_ok`
/// for what a framed but non-canonical payload yields.
pub fn encode_batch(api_key: &str, events: &Vec<Event>) -> (r: Result<String, EncodeError>)
    ensures
        r is Ok <==> all_payloads_ok(events@),
        r is Ok ==> r->Ok_0@ == batch_json(api_key@, events@),
        r is Err ==> r->Err_0.index < events@.len() && !payload_ok(
            events@[r->Err_0.index as int],
        ) && (forall|j: int| 0 <= j < r->Err_0.index ==> payload_ok(#[trigger] events@[j])),
{
    let mut i: usize = 0;
    while i < events.len()
        invariant
            i <= events@.len(),
            forall|j: int| 0 <= j < i ==> payload_ok(#[trigger] events@[j]),
        decreases events@.len() - i,
    {
        if !payload_is_ok(&events[i]) {
            return Err(EncodeError { index: i });
        }
        i = i + 1;
    }
    let mut out = String::new();
    out.append("{\"api_key\":");
    append_json_string(&mut out, api_key);
    out.append(",\"batch\":[");
    let ghost prefix = out@;
    let mut k: usize = 0;
    while k < events.len()
        invariant
            k <= events@.len(),
            all_payloads_ok(events@),
            out@ == prefix + items_json(events@.take(k as int)),
        decreases events@.len() - k,
    {
        if k > 0 {
            push_char(&mut out, ',');
        }
        append_record(&mut out, &events[k]);
        k = k + 1;
        proof {
            let t = events@.take(k as int);
            assert(t.drop_last() =~= events@.take(k as int - 1));
            assert(t.last() == events@[k as int - 1]);
            assert(out@ =~= prefix + items_json(t));
        }
    }
    out.append("]}");
    proof {
        assert(events@.take(events@.len() as int) =~= events@);
        assert(out@ =~= batch_json(api_key@, events@));
    }
    Ok(out)
}

} // verus!
