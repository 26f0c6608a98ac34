use vstd::prelude::*;

use crate::event::{Event, EventV};

verus! {

/// Characters that cannot stand bare inside a JSON string: the quote, the
/// backslash, and the control characters.
pub open spec fn needs_escape(c: char) -> bool {
    c == '"' || c == '\\' || (c as u32) < 0x20
}

/// The lower-case hexadecimal digit for a value below sixteen.
pub open spec fn hex_digit(n: u32) -> char {
    if n == 0 {
        '0'
    } else if n == 1 {
        '1'
    } else if n == 2 {
        '2'
    } else if n == 3 {
        '3'
    } else if n == 4 {
        '4'
    } else if n == 5 {
        '5'
    } else if n == 6 {
        '6'
    } else if n == 7 {
        '7'
    } else if n == 8 {
        '8'
    } else if n == 9 {
        '9'
    } else if n == 10 {
        'a'
    } else if n == 11 {
        'b'
    } else if n == 12 {
        'c'
    } else if n == 13 {
        'd'
    } else if n == 14 {
        'e'
    } else {
        'f'
    }
}

/// The JSON escape of one character: a two-character escape for the quote
/// and the backslash, a `\u00..` escape for a control character, and the
/// character itself otherwise.
pub open spec fn escape_char(c: char) -> Seq<char> {
    if c == '"' {
        seq!['\\', '"']
    } else if c == '\\' {
        seq!['\\', '\\']
    } else if (c as u32) < 0x20 {
        seq!['\\', 'u', '0', '0', hex_digit((c as u32) / 16), hex_digit((c as u32) % 16)]
    } else {
        seq![c]
    }
}

/// The JSON escape of a whole text, character by character.
pub open spec fn escaped(t: Seq<char>) -> Seq<char>
    decreases t.len(),
{
    if t.len() == 0 {
        Seq::empty()
    } else {
        escape_char(t[0]) + escaped(t.skip(1))
    }
}

/// Escaping distributes over concatenation.
pub proof fn lemma_escaped_concat(a: Seq<char>, b: Seq<char>)
    ensures
        escaped(a + b) == escaped(a) + escaped(b),
    decreases a.len(),
{
    if a.len() == 0 {
        assert(a + b =~= b);
        assert(escaped(a) + escaped(b) =~= escaped(b));
    } else {
        assert((a + b)[0] == a[0]);
        assert((a + b).skip(1) =~= a.skip(1) + b);
        lemma_escaped_concat(a.skip(1), b);
        assert(escape_char(a[0]) + (escaped(a.skip(1)) + escaped(b)) =~= (escape_char(a[0])
            + escaped(a.skip(1))) + escaped(b));
        assert(escaped(a + b) == escape_char(a[0]) + escaped((a + b).skip(1)));
        assert(escaped(a) + escaped(b) =~= escaped(a + b));
    }
}

/// A text with no character in need of escaping escapes to itself.
pub proof fn lemma_escaped_plain(t: Seq<char>)
    requires
        forall|j: int| 0 <= j < t.len() ==> !needs_escape(#[trigger] t[j]),
    ensures
        escaped(t) == t,
    decreases t.len(),
{
    if t.len() == 0 {
        assert(escaped(t) =~= t);
    } else {
        assert(!needs_escape(t[0]));
        assert(escape_char(t[0]) =~= seq![t[0]]);
        lemma_escaped_plain(t.skip(1));
        assert(escaped(t) =~= seq![t[0]] + t.skip(1));
        assert(seq![t[0]] + t.skip(1) =~= t);
    }
}

/// The escape sequence of one character that needs escaping.
fn escape_replacement(c: char) -> (r: &'static str)
    requires
        needs_escape(c),
    ensures
        r@ == escape_char(c),
{
    proof {
        reveal_strlit("\\\"");
        reveal_strlit("\\\\");
        reveal_strlit("\\u0000");
        reveal_strlit("\\u0001");
        reveal_strlit("\\u0002");
        reveal_strlit("\\u0003");
        reveal_strlit("\\u0004");
        reveal_strlit("\\u0005");
        reveal_strlit("\\u0006");
        reveal_strlit("\\u0007");
        reveal_strlit("\\u0008");
        reveal_strlit("\\u0009");
        reveal_strlit("\\u000a");
        reveal_strlit("\\u000b");
        reveal_strlit("\\u000c");
        reveal_strlit("\\u000d");
        reveal_strlit("\\u000e");
        reveal_strlit("\\u000f");
        reveal_strlit("\\u0010");
        reveal_strlit("\\u0011");
        reveal_strlit("\\u0012");
        reveal_strlit("\\u0013");
        reveal_strlit("\\u0014");
        reveal_strlit("\\u0015");
        reveal_strlit("\\u0016");
        reveal_strlit("\\u0017");
        reveal_strlit("\\u0018");
        reveal_strlit("\\u0019");
        reveal_strlit("\\u001a");
        reveal_strlit("\\u001b");
        reveal_strlit("\\u001c");
        reveal_strlit("\\u001d");
        reveal_strlit("\\u001e");
        reveal_strlit("\\u001f");
    }
    match c {
        '"' => "\\\"",
        '\\' => "\\\\",
        '\u{00}' => "\\u0000",
        '\u{01}' => "\\u0001",
        '\u{02}' => "\\u0002",
        '\u{03}' => "\\u0003",
        '\u{04}' => "\\u0004",
        '\u{05}' => "\\u0005",
        '\u{06}' => "\\u0006",
        '\u{07}' => "\\u0007",
        '\u{08}' => "\\u0008",
        '\u{09}' => "\\u0009",
        '\u{0a}' => "\\u000a",
        '\u{0b}' => "\\u000b",
        '\u{0c}' => "\\u000c",
        '\u{0d}' => "\\u000d",
        '\u{0e}' => "\\u000e",
        '\u{0f}' => "\\u000f",
        '\u{10}' => "\\u0010",
        '\u{11}' => "\\u0011",
        '\u{12}' => "\\u0012",
        '\u{13}' => "\\u0013",
        '\u{14}' => "\\u0014",
        '\u{15}' => "\\u0015",
        '\u{16}' => "\\u0016",
        '\u{17}' => "\\u0017",
        '\u{18}' => "\\u0018",
        '\u{19}' => "\\u0019",
        '\u{1a}' => "\\u001a",
        '\u{1b}' => "\\u001b",
        '\u{1c}' => "\\u001c",
        '\u{1d}' => "\\u001d",
        '\u{1e}' => "\\u001e",
        _ => "\\u001f",
    }
}

/// Appends the JSON escape of `s` to `out`.
fn append_escaped(out: &mut String, s: &str)
    ensures
        final(out)@ == old(out)@ + escaped(s@),
{
    let n = s.unicode_len();
    let mut i: usize = 0;
    let mut run_start: usize = 0;
    while i < n
        invariant
            run_start <= i <= n,
            n == s@.len(),
            out@ == old(out)@ + escaped(s@.take(run_start as int)),
            forall|j: int| run_start <= j < i ==> !needs_escape(#[trigger] s@[j]),
        decreases n - i,
    {
        let c = s.get_char(i);
        if c == '"' || c == '\\' || (c as u32) < 0x20 {
            let run = s.substring_char(run_start, i);
            out.append(run);
            out.append(escape_replacement(c));
            proof {
                let t = s@;
                let rs = run_start as int;
                let ii = i as int;
                lemma_escaped_plain(t.subrange(rs, ii));
                lemma_escaped_concat(t.take(rs), t.subrange(rs, ii));
                assert(t.take(rs) + t.subrange(rs, ii) =~= t.take(ii));
                lemma_escaped_concat(t.take(ii), seq![t[ii]]);
                assert(t.take(ii) + seq![t[ii]] =~= t.take(ii + 1));
                assert(seq![t[ii]].skip(1) =~= Seq::<char>::empty());
                assert(escaped(Seq::<char>::empty()) =~= Seq::<char>::empty());
                assert(escaped(seq![t[ii]]) == escape_char(seq![t[ii]][0]) + escaped(
                    seq![t[ii]].skip(1),
                ));
                assert(escape_char(t[ii]) + Seq::<char>::empty() =~= escape_char(t[ii]));
                assert(escaped(seq![t[ii]]) =~= escape_char(t[ii]));
                assert(out@ =~= old(out)@ + escaped(t.take(ii + 1)));
            }
            run_start = i + 1;
        }
        i += 1;
    }
    let run = s.substring_char(run_start, n);
    out.append(run);
    proof {
        let t = s@;
        let rs = run_start as int;
        lemma_escaped_plain(t.subrange(rs, n as int));
        lemma_escaped_concat(t.take(rs), t.subrange(rs, n as int));
        assert(t.take(rs) + t.subrange(rs, n as int) =~= t);
        assert(out@ =~= old(out)@ + escaped(t));
    }
}

/// The decimal digit character of a value below ten.
pub open spec fn dec_digit(n: nat) -> char {
    if n == 0 {
        '0'
    } else if n == 1 {
        '1'
    } else if n == 2 {
        '2'
    } else if n == 3 {
        '3'
    } else if n == 4 {
        '4'
    } else if n == 5 {
        '5'
    } else if n == 6 {
        '6'
    } else if n == 7 {
        '7'
    } else if n == 8 {
        '8'
    } else {
        '9'
    }
}

/// The decimal numeral of a natural number, most significant digit first and
/// without leading zeroes.
pub open spec fn decimal(n: nat) -> Seq<char>
    decreases n,
{
    if n < 10 {
        seq![dec_digit(n)]
    } else {
        decimal(n / 10).push(dec_digit(n % 10))
    }
}

/// The digit characters of `d` read back to front.
pub open spec fn rev_digit_chars(d: Seq<u64>) -> Seq<char> {
    Seq::new(d.len(), |k: int| dec_digit(d[d.len() - 1 - k] as nat))
}

/// The character of one decimal digit.
fn dec_digit_str(d: u64) -> (r: &'static str)
    requires
        d < 10,
    ensures
        r@ == seq![dec_digit(d as nat)],
{
    proof {
        reveal_strlit("0");
        reveal_strlit("1");
        reveal_strlit("2");
        reveal_strlit("3");
        reveal_strlit("4");
        reveal_strlit("5");
        reveal_strlit("6");
        reveal_strlit("7");
        reveal_strlit("8");
        reveal_strlit("9");
    }
    match d {
        0 => "0",
        1 => "1",
        2 => "2",
        3 => "3",
        4 => "4",
        5 => "5",
        6 => "6",
        7 => "7",
        8 => "8",
        _ => "9",
    }
}

/// Appends the decimal numeral of `n` to `out`.
fn append_decimal(out: &mut String, n: u64)
    ensures
        final(out)@ == old(out)@ + decimal(n as nat),
{
    // Collect the digits least significant first.
    let mut digits: Vec<u64> = Vec::new();
    let mut m: u64 = n;
    digits.push(m % 10);
    m = m / 10;
    proof {
        if m > 0 {
            assert(decimal(n as nat) == decimal((n as nat) / 10).push(dec_digit((n as nat) % 10)));
            assert(decimal((m as nat)) + rev_digit_chars(digits@) =~= decimal(n as nat));
        } else {
            assert(rev_digit_chars(digits@) =~= decimal(n as nat));
        }
    }
    while m > 0
        invariant
            forall|k: int| 0 <= k < digits@.len() ==> #[trigger] digits@[k] < 10,
            m > 0 ==> decimal(m as nat) + rev_digit_chars(digits@) == decimal(n as nat),
            m == 0 ==> rev_digit_chars(digits@) == decimal(n as nat),
        decreases m,
    {
        let ghost pre = digits@;
        let ghost mm = m as nat;
        digits.push(m % 10);
        m = m / 10;
        proof {
            assert(seq![dec_digit((mm % 10))] + rev_digit_chars(pre) =~= rev_digit_chars(
                pre.push((mm % 10) as u64),
            ));
            if m > 0 {
                assert(decimal(mm) == decimal(mm / 10).push(dec_digit(mm % 10)));
                assert(decimal(mm / 10) + (seq![dec_digit(mm % 10)] + rev_digit_chars(pre))
                    =~= (decimal(mm / 10).push(dec_digit(mm % 10))) + rev_digit_chars(pre));
                assert(decimal(mm) + rev_digit_chars(pre) =~= decimal(n as nat));
            } else {
                assert(mm < 10);
                assert(decimal(mm) == seq![dec_digit(mm)]);
                assert(seq![dec_digit(mm)] + rev_digit_chars(pre) =~= rev_digit_chars(
                    digits@,
                ));
            }
        }
    }
    // Append them back to front.
    let ghost base = out@;
    let mut j: usize = digits.len();
    proof {
        assert(digits@.skip(j as int) =~= Seq::<u64>::empty());
        assert(rev_digit_chars(Seq::<u64>::empty()) =~= Seq::<char>::empty());
        assert(out@ =~= base + rev_digit_chars(digits@.skip(j as int)));
    }
    while j > 0
        invariant
            j <= digits@.len(),
            forall|k: int| 0 <= k < digits@.len() ==> #[trigger] digits@[k] < 10,
            out@ == base + rev_digit_chars(digits@.skip(j as int)),
        decreases j,
    {
        let ghost jj = j as int;
        let d = digits[j - 1];
        out.append(dec_digit_str(d));
        proof {
            assert(rev_digit_chars(digits@.skip(jj - 1)) =~= rev_digit_chars(
                digits@.skip(jj),
            ) + seq![dec_digit(digits@[jj - 1] as nat)]);
            assert(out@ =~= base + rev_digit_chars(digits@.skip(jj - 1)));
        }
        j = j - 1;
    }
    proof {
        assert(digits@.skip(0) =~= digits@);
        assert(rev_digit_chars(digits@) == decimal(n as nat));
    }
}

/// The numeric wire tag of an emitted event.
pub open spec fn wire_tag(v: EventV) -> u64 {
    match v {
        EventV::ServerWelcome { .. } => 2,
        EventV::FileMetadata { .. } => 3,
        EventV::ConnectedToRelay => 4,
        EventV::Progress { .. } => 1,
        EventV::Code { .. } => 5,
    }
}

/// The serialized wire form of an event: one JSON object in which every
/// field is always present and only the fields matching the tag carry
/// meaning; the others hold their default values.
pub open spec fn spec_event_json(v: EventV) -> Seq<char> {
    "{\"event_type\":"@ + decimal(wire_tag(v) as nat) + ",\"server_welcome_message\":\""@
        + escaped(
        match v {
            EventV::ServerWelcome { message } => message,
            _ => Seq::empty(),
        },
    ) + "\",\"file_name\":\""@ + escaped(
        match v {
            EventV::FileMetadata { file_name, .. } => file_name,
            _ => Seq::empty(),
        },
    ) + "\",\"file_size\":"@ + decimal(
        match v {
            EventV::FileMetadata { file_size, .. } => file_size as nat,
            _ => 0,
        },
    ) + ",\"progress_current\":"@ + decimal(
        match v {
            EventV::Progress { current, .. } => current as nat,
            _ => 0,
        },
    ) + ",\"progress_total\":"@ + decimal(
        match v {
            EventV::Progress { total, .. } => total as nat,
            _ => 0,
        },
    ) + ",\"code\":\""@ + escaped(
        match v {
            EventV::Code { code } => code,
            _ => Seq::empty(),
        },
    ) + "\"}"@
}

/// Serializes one event into its JSON wire form. The output is a function
/// of the event's value alone, so equal events always serialize to equal
/// text.
pub fn event_to_json(e: &Event) -> (r: String)
    ensures
        r@ == spec_event_json(e@),
{
    proof {
        reveal_strlit("");
    }
    let empty_text: &str = "";
    let tag: u64 = match e {
        Event::ServerWelcome { .. } => 2,
        Event::FileMetadata { .. } => 3,
        Event::ConnectedToRelay => 4,
        Event::Progress { .. } => 1,
        Event::Code { .. } => 5,
    };
    let msg: &str = match e {
        Event::ServerWelcome { message } => message.as_str(),
        _ => empty_text,
    };
    let fname: &str = match e {
        Event::FileMetadata { file_name, .. } => file_name.as_str(),
        _ => empty_text,
    };
    let fsize: u64 = match e {
        Event::FileMetadata { file_size, .. } => *file_size,
        _ => 0,
    };
    let cur: u64 = match e {
        Event::Progress { current, .. } => *current,
        _ => 0,
    };
    let tot: u64 = match e {
        Event::Progress { total, .. } => *total,
        _ => 0,
    };
    let pairing: &str = match e {
        Event::Code { code } => code.as_str(),
        _ => empty_text,
    };
    let mut out = String::from_str("{\"event_type\":");
    append_decimal(&mut out, tag);
    out.append(",\"server_welcome_message\":\"");
    append_escaped(&mut out, msg);
    out.append("\",\"file_name\":\"");
    append_escaped(&mut out, fname);
    out.append("\",\"file_size\":");
    append_decimal(&mut out, fsize);
    out.append(",\"progress_current\":");
    append_decimal(&mut out, cur);
    out.append(",\"progress_total\":");
    append_decimal(&mut out, tot);
    out.append(",\"code\":\"");
    append_escaped(&mut out, pairing);
    out.append("\"}");
    proof {
        assert(out@ =~= spec_event_json(e@));
    }
    out
}

} // verus!
