//! The outgoing half of the wire protocol: building the line-delimited
//! structured text messages that travel to the core. Every message the
//! front end emits is produced here, against an exact statement of its text.

use vstd::prelude::*;
use vstd::string::{StrSliceExecFns, StringExecFns};

verus! {

/// The character for one decimal digit.
pub open spec fn digit_char(d: int) -> char {
    if d == 0 {
        '0'
    } else if d == 1 {
        '1'
    } else if d == 2 {
        '2'
    } else if d == 3 {
        '3'
    } else if d == 4 {
        '4'
    } else if d == 5 {
        '5'
    } else if d == 6 {
        '6'
    } else if d == 7 {
        '7'
    } else if d == 8 {
        '8'
    } else {
        '9'
    }
}

/// The character for one hexadecimal digit, lower case.
pub open spec fn hex_char(d: int) -> char {
    if d < 10 {
        digit_char(d)
    } else if d == 10 {
        'a'
    } else if d == 11 {
        'b'
    } else if d == 12 {
        'c'
    } else if d == 13 {
        'd'
    } else if d == 14 {
        'e'
    } else {
        'f'
    }
}

/// The usual decimal rendering of a non-negative integer, no leading zeros.
pub open spec fn dec_text(n: int) -> Seq<char>
    decreases n,
{
    if n < 10 {
        seq![digit_char(n)]
    } else {
        dec_text(n / 10) + seq![digit_char(n % 10)]
    }
}

/// How one character is written inside a quoted string: quote and backslash
/// get a backslash escape, control characters a four-digit hexadecimal
/// escape, everything else stands as itself.
pub open spec fn escaped_char(c: char) -> Seq<char> {
    let u = c as u32;
    if u == 0x22 {
        seq!['\\', '"']
    } else if u == 0x5c {
        seq!['\\', '\\']
    } else if u < 0x20 {
        seq!['\\', 'u', '0', '0', hex_char(u as int / 16), hex_char(u as int % 16)]
    } else {
        seq![c]
    }
}

/// A character sequence with every character escaped as above.
pub open spec fn escaped_text(s: Seq<char>) -> Seq<char>
    decreases s.len(),
{
    if s.len() == 0 {
        Seq::empty()
    } else {
        escaped_text(s.drop_last()) + escaped_char(s.last())
    }
}

/// A quoted string: the escaped characters between double quotes.
pub open spec fn quoted_text(s: Seq<char>) -> Seq<char> {
    seq!['"'] + escaped_text(s) + seq!['"']
}

/// A notification: a method name and a params object, no correlation id.
pub open spec fn notification_text(method: Seq<char>, params: Seq<char>) -> Seq<char> {
    ("{\"method\":")@ + quoted_text(method) + (",\"params\":")@ + params + ("}")@
}

/// A request: a method name, a params object and a correlation id; it
/// expects exactly one eventual response carrying the same id.
pub open spec fn request_text(method: Seq<char>, params: Seq<char>, id: int) -> Seq<char> {
    ("{\"method\":")@ + quoted_text(method) + (",\"params\":")@ + params + (",\"id\":")@
        + dec_text(id) + ("}")@
}

/// The params of an `edit` notification: an editing command, its own
/// params, and the view it addresses.
pub open spec fn edit_params_text(cmd: Seq<char>, params: Seq<char>, view_id: Seq<char>) -> Seq<
    char,
> {
    ("{\"method\":")@ + quoted_text(cmd) + (",\"params\":")@ + params + (",\"view_id\":")@
        + quoted_text(view_id) + ("}")@
}

/// The params of an `insert` command: the characters to insert.
pub open spec fn chars_params_text(chars: Seq<char>) -> Seq<char> {
    ("{\"chars\":")@ + quoted_text(chars) + ("}")@
}

/// The params of a `gesture` command placing the caret at a line and column.
pub open spec fn point_select_params_text(line: int, col: int) -> Seq<char> {
    ("{\"ty\":\"point_select\",\"line\":")@ + dec_text(line) + (",\"col\":")@ + dec_text(col) + (
    "}")@
}

/// A two-element integer array, as the `scroll` notification carries.
pub open spec fn int_pair_text(a: int, b: int) -> Seq<char> {
    ("[")@ + dec_text(a) + (",")@ + dec_text(b) + ("]")@
}

/// The params of an `open` or `save` notification: a view id and a path.
pub open spec fn file_params_text(view_id: Seq<char>, path: Seq<char>) -> Seq<char> {
    ("{\"view_id\":")@ + quoted_text(view_id) + (",\"file_path\":")@ + quoted_text(path) + ("}")@
}

/// The params of a `new_view` request: empty for a fresh buffer, the file
/// path for an existing file.
pub open spec fn new_view_params_text(filename: Option<Seq<char>>) -> Seq<char> {
    match filename {
        None => ("{}")@,
        Some(path) => ("{\"file_path\":")@ + quoted_text(path) + ("}")@,
    }
}

/// Character-for-character string equality.
pub fn str_eq(a: &str, b: &str) -> (r: bool)
    ensures
        r == (a@ == b@),
{
    let owned_a = a.to_owned();
    let owned_b = b.to_owned();
    owned_a == owned_b
}

/// Relies on char's ToString implementation: formatting a char yields
/// exactly that one character.
#[verifier::external_body]
pub(crate) fn char_to_string(c: char) -> (r: String)
    ensures
        r@ == seq![c],
{
    c.to_string()
}

/// Append one decimal digit.
fn append_digit(out: &mut String, d: u64)
    requires
        d < 10,
    ensures
        final(out)@ == old(out)@ + seq![digit_char(d as int)],
{
    if d == 0 {
        out.append("0");
        proof {
            reveal_strlit("0");
            assert(("0")@ =~= seq![digit_char(0)]);
        }
    } else if d == 1 {
        out.append("1");
        proof {
            reveal_strlit("1");
            assert(("1")@ =~= seq![digit_char(1)]);
        }
    } else if d == 2 {
        out.append("2");
        proof {
            reveal_strlit("2");
            assert(("2")@ =~= seq![digit_char(2)]);
        }
    } else if d == 3 {
        out.append("3");
        proof {
            reveal_strlit("3");
            assert(("3")@ =~= seq![digit_char(3)]);
        }
    } else if d == 4 {
        out.append("4");
        proof {
            reveal_strlit("4");
            assert(("4")@ =~= seq![digit_char(4)]);
        }
    } else if d == 5 {
        out.append("5");
        proof {
            reveal_strlit("5");
            assert(("5")@ =~= seq![digit_char(5)]);
        }
    } else if d == 6 {
        out.append("6");
        proof {
            reveal_strlit("6");
            assert(("6")@ =~= seq![digit_char(6)]);
        }
    } else if d == 7 {
        out.append("7");
        proof {
            reveal_strlit("7");
            assert(("7")@ =~= seq![digit_char(7)]);
        }
    } else if d == 8 {
        out.append("8");
        proof {
            reveal_strlit("8");
            assert(("8")@ =~= seq![digit_char(8)]);
        }
    } else {
        out.append("9");
        proof {
            reveal_strlit("9");
            assert(("9")@ =~= seq![digit_char(9)]);
        }
    }
}

/// Append one hexadecimal digit, lower case.
fn append_hex_digit(out: &mut String, d: u64)
    requires
        d < 16,
    ensures
        final(out)@ == old(out)@ + seq![hex_char(d as int)],
{
    if d < 10 {
        append_digit(out, d);
    } else if d == 10 {
        out.append("a");
        proof {
            reveal_strlit("a");
            assert(("a")@ =~= seq![hex_char(10)]);
        }
    } else if d == 11 {
        out.append("b");
        proof {
            reveal_strlit("b");
            assert(("b")@ =~= seq![hex_char(11)]);
        }
    } else if d == 12 {
        out.append("c");
        proof {
            reveal_strlit("c");
            assert(("c")@ =~= seq![hex_char(12)]);
        }
    } else if d == 13 {
        out.append("d");
        proof {
            reveal_strlit("d");
            assert(("d")@ =~= seq![hex_char(13)]);
        }
    } else if d == 14 {
        out.append("e");
        proof {
            reveal_strlit("e");
            assert(("e")@ =~= seq![hex_char(14)]);
        }
    } else {
        out.append("f");
        proof {
            reveal_strlit("f");
            assert(("f")@ =~= seq![hex_char(15)]);
        }
    }
}

/// Append the decimal rendering of `n`.
pub fn append_dec(out: &mut String, n: u64)
    ensures
        final(out)@ == old(out)@ + dec_text(n as int),
    decreases n,
{
    if n < 10 {
        append_digit(out, n);
    } else {
        let ghost before = out@;
        append_dec(out, n / 10);
        append_digit(out, n % 10);
        proof {
            assert(out@ =~= before + dec_text(n as int));
        }
    }
}

/// Append the characters of `s`, each escaped as `escaped_char` says.
fn append_escaped(out: &mut String, s: &str)
    ensures
        final(out)@ == old(out)@ + escaped_text(s@),
{
    let ghost before = out@;
    let n = s.unicode_len();
    let mut i: usize = 0;
    while i < n
        invariant
            n == s@.len(),
            i <= n,
            out@ == before + escaped_text(s@.take(i as int)),
        decreases n - i,
    {
        let ghost prefix = out@;
        let c = s.get_char(i);
        let u = c as u32;
        if u == 0x22 {
            out.append("\\\"");
            proof {
                reveal_strlit("\\\"");
                assert(("\\\"")@ =~= escaped_char(c));
            }
        } else if u == 0x5c {
            out.append("\\\\");
            proof {
                reveal_strlit("\\\\");
                assert(("\\\\")@ =~= escaped_char(c));
            }
        } else if u < 0x20 {
            out.append("\\u00");
            append_hex_digit(out, (u / 16) as u64);
            append_hex_digit(out, (u % 16) as u64);
            proof {
                reveal_strlit("\\u00");
                assert(out@ =~= prefix + escaped_char(c));
            }
        } else {
            let piece = s.substring_char(i, i + 1);
            out.append(piece);
            proof {
                assert(piece@ =~= seq![c]);
                assert(out@ =~= prefix + escaped_char(c));
            }
        }
        proof {
            assert(s@.take(i + 1).drop_last() =~= s@.take(i as int));
            assert(s@.take(i + 1).last() == s@[i as int]);
            assert(out@ =~= before + escaped_text(s@.take(i + 1)));
        }
        i = i + 1;
    }
    proof {
        assert(s@.take(n as int) =~= s@);
    }
}

/// Append `s` as a quoted, escaped string.
pub fn append_quoted(out: &mut String, s: &str)
    ensures
        final(out)@ == old(out)@ + quoted_text(s@),
{
    let ghost before = out@;
    out.append("\"");
    append_escaped(out, s);
    out.append("\"");
    proof {
        reveal_strlit("\"");
        assert(("\"")@ =~= seq!['"']);
        assert(out@ =~= before + quoted_text(s@));
    }
}

/// The full text of a notification message.
pub fn notification_string(method: &str, params_json: &str) -> (r: String)
    ensures
        r@ == notification_text(method@, params_json@),
{
    let mut out = String::new();
    out.append("{\"method\":");
    append_quoted(&mut out, method);
    out.append(",\"params\":");
    out.append(params_json);
    out.append("}");
    proof {
        assert(out@ =~= notification_text(method@, params_json@));
    }
    out
}

/// The full text of a request message with correlation id `id`.
pub fn request_string(method: &str, params_json: &str, id: u64) -> (r: String)
    ensures
        r@ == request_text(method@, params_json@, id as int),
{
    let mut out = String::new();
    out.append("{\"method\":");
    append_quoted(&mut out, method);
    out.append(",\"params\":");
    out.append(params_json);
    out.append(",\"id\":");
    append_dec(&mut out, id);
    out.append("}");
    proof {
        assert(out@ =~= request_text(method@, params_json@, id as int));
    }
    out
}

/// The params object wrapping an editing command for one view.
pub fn edit_params_string(cmd: &str, params_json: &str, view_id: &str) -> (r: String)
    ensures
        r@ == edit_params_text(cmd@, params_json@, view_id@),
{
    let mut out = String::new();
    out.append("{\"method\":");
    append_quoted(&mut out, cmd);
    out.append(",\"params\":");
    out.append(params_json);
    out.append(",\"view_id\":");
    append_quoted(&mut out, view_id);
    out.append("}");
    proof {
        assert(out@ =~= edit_params_text(cmd@, params_json@, view_id@));
    }
    out
}

/// The params object of an `insert` command.
pub fn chars_params_string(chars: &str) -> (r: String)
    ensures
        r@ == chars_params_text(chars@),
{
    let mut out = String::new();
    out.append("{\"chars\":");
    append_quoted(&mut out, chars);
    out.append("}");
    proof {
        assert(out@ =~= chars_params_text(chars@));
    }
    out
}

/// The params object of a caret-placing `gesture` command.
pub fn point_select_params_string(line: u64, col: u64) -> (r: String)
    ensures
        r@ == point_select_params_text(line as int, col as int),
{
    let mut out = String::new();
    out.append("{\"ty\":\"point_select\",\"line\":");
    append_dec(&mut out, line);
    out.append(",\"col\":");
    append_dec(&mut out, col);
    out.append("}");
    proof {
        assert(out@ =~= point_select_params_text(line as int, col as int));
    }
    out
}

/// A two-element integer array.
pub fn int_pair_string(a: u64, b: u64) -> (r: String)
    ensures
        r@ == int_pair_text(a as int, b as int),
{
    let mut out = String::new();
    out.append("[");
    append_dec(&mut out, a);
    out.append(",");
    append_dec(&mut out, b);
    out.append("]");
    proof {
        assert(out@ =~= int_pair_text(a as int, b as int));
    }
    out
}

/// The params object of an `open` or `save` notification.
pub fn file_params_string(view_id: &str, path: &str) -> (r: String)
    ensures
        r@ == file_params_text(view_id@, path@),
{
    let mut out = String::new();
    out.append("{\"view_id\":");
    append_quoted(&mut out, view_id);
    out.append(",\"file_path\":");
    append_quoted(&mut out, path);
    out.append("}");
    proof {
        assert(out@ =~= file_params_text(view_id@, path@));
    }
    out
}

/// The params object of a `new_view` request.
pub fn new_view_params_string(filename: Option<&str>) -> (r: String)
    ensures
        r@ == new_view_params_text(match filename {
            None => None,
            Some(path) => Some(path@),
        }),
{
    match filename {
        None => {
            let mut out = String::new();
            out.append("{}");
            out
        },
        Some(path) => {
            let mut out = String::new();
            out.append("{\"file_path\":");
            append_quoted(&mut out, path);
            out.append("}");
            proof {
                assert(out@ =~= new_view_params_text(Some(path@)));
            }
            out
        },
    }
}

} // verus!
