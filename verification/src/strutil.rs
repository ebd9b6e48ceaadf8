//! String helpers: comparison, classification, escaping, and decimal
//! formatting, each specified over character sequences.

use vstd::prelude::*;

verus! {

use vstd::string::StringSliceAdditionalSpecFns;
use vstd::string::StrSliceExecFns;
use vstd::string::StringExecFns;

broadcast use vstd::seq::axiom_seq_index_decreases;

/// Relies on String::push: appends exactly the one character to the string.
pub assume_specification[ std::string::String::push ](s: &mut String, c: char)
    ensures
        final(s)@ == old(s)@.push(c),
;

/// Compares two string slices by content.
pub fn str_eq(a: &str, b: &str) -> (r: bool)
    ensures
        r == (a@ == b@),
{
    let ab = a.as_bytes();
    let bb = b.as_bytes();
    if ab.len() != bb.len() {
        proof {
            if a@ == b@ {
                assert(a.spec_bytes() == b.spec_bytes());
            }
        }
        return false;
    }
    let mut i: usize = 0;
    while i < ab.len()
        invariant
            0 <= i <= ab@.len(),
            ab@.len() == bb@.len(),
            ab@ == a.spec_bytes(),
            bb@ == b.spec_bytes(),
            forall|j: int| 0 <= j < i ==> ab@[j] == bb@[j],
        decreases ab@.len() - i,
    {
        if ab[i] != bb[i] {
            proof {
                if a@ == b@ {
                    assert(a.spec_bytes() == b.spec_bytes());
                }
            }
            return false;
        }
        i = i + 1;
    }
    proof {
        assert(a.spec_bytes() =~= b.spec_bytes());
        vstd::utf8::encode_utf8_decode_utf8(a@);
        vstd::utf8::encode_utf8_decode_utf8(b@);
    }
    true
}

pub open spec fn is_ident_start_char(c: char) -> bool {
    ('a' <= c && c <= 'z') || ('A' <= c && c <= 'Z') || c == '_'
}

pub open spec fn is_ident_rest_char(c: char) -> bool {
    is_ident_start_char(c) || ('0' <= c && c <= '9') || c == '\'' || c == '-'
}

/// A valid identifier starts with an ASCII letter or underscore and goes on
/// with ASCII letters, digits, underscores, apostrophes or hyphens.
pub open spec fn valid_identifier(s: Seq<char>) -> bool {
    &&& s.len() > 0
    &&& is_ident_start_char(s[0])
    &&& forall|i: int| 1 <= i < s.len() ==> is_ident_rest_char(#[trigger] s[i])
}

fn char_is_ident_start(c: char) -> (r: bool)
    ensures
        r == is_ident_start_char(c),
{
    ('a' <= c && c <= 'z') || ('A' <= c && c <= 'Z') || c == '_'
}

fn char_is_ident_rest(c: char) -> (r: bool)
    ensures
        r == is_ident_rest_char(c),
{
    char_is_ident_start(c) || ('0' <= c && c <= '9') || c == '\'' || c == '-'
}

/// Whether a string can stand as a bare identifier.
pub fn is_valid_identifier(s: &str) -> (r: bool)
    ensures
        r == valid_identifier(s@),
{
    let n = s.unicode_len();
    if n == 0 {
        return false;
    }
    if !char_is_ident_start(s.get_char(0)) {
        return false;
    }
    let mut i: usize = 1;
    while i < n
        invariant
            1 <= i <= n,
            n == s@.len(),
            s@.len() > 0,
            is_ident_start_char(s@[0]),
            forall|j: int| 1 <= j < i ==> is_ident_rest_char(#[trigger] s@[j]),
        decreases n - i,
    {
        if !char_is_ident_rest(s.get_char(i)) {
            return false;
        }
        i = i + 1;
    }
    true
}

/// The language's reserved words.
pub open spec fn spec_is_keyword(s: Seq<char>) -> bool {
    s == "assert"@ || s == "else"@ || s == "if"@ || s == "in"@ || s == "inherit"@ || s == "let"@
        || s == "or"@ || s == "rec"@ || s == "then"@ || s == "with"@
}

/// Whether a string is one of the language's reserved words.
pub fn is_nix_keyword(s: &str) -> (r: bool)
    ensures
        r == spec_is_keyword(s@),
{
    str_eq(s, "assert") || str_eq(s, "else") || str_eq(s, "if") || str_eq(s, "in") || str_eq(
        s,
        "inherit",
    ) || str_eq(s, "let") || str_eq(s, "or") || str_eq(s, "rec") || str_eq(s, "then") || str_eq(
        s,
        "with",
    )
}

/// Whether a string must be quoted to serve as an attribute name.
pub fn needs_quoting(s: &str) -> (r: bool)
    ensures
        r == (!valid_identifier(s@) || spec_is_keyword(s@)),
{
    !is_valid_identifier(s) || is_nix_keyword(s)
}

/// The escaped form of one character inside a double-quoted string.
pub open spec fn escape_char(c: char) -> Seq<char> {
    if c == '"' {
        seq!['\\', '"']
    } else if c == '\\' {
        seq!['\\', '\\']
    } else if c == '\n' {
        seq!['\\', 'n']
    } else if c == '\r' {
        seq!['\\', 'r']
    } else if c == '\t' {
        seq!['\\', 't']
    } else if c == '$' {
        seq!['\\', '$']
    } else {
        seq![c]
    }
}

pub open spec fn escape_string(s: Seq<char>) -> Seq<char>
    decreases s.len(),
{
    if s.len() == 0 {
        Seq::empty()
    } else {
        escape_char(s[0]) + escape_string(s.drop_first())
    }
}

proof fn lemma_escape_take_step(s: Seq<char>, i: int)
    requires
        0 <= i < s.len(),
    ensures
        escape_string(s.take(i + 1)) == escape_string(s.take(i)) + escape_char(s[i]),
    decreases i,
{
    if i == 0 {
        assert(s.take(1) =~= seq![s[0]]);
        assert(s.take(1).drop_first() =~= Seq::<char>::empty());
        assert(s.take(0) =~= Seq::<char>::empty());
        assert(s.take(1)[0] == s[0]);
        assert(escape_char(s[0]) + Seq::<char>::empty() =~= escape_char(s[0]));
        assert(escape_string(Seq::<char>::empty()) == Seq::<char>::empty());
        assert(s.take(1).len() != 0);
        assert(escape_string(s.take(1)) == escape_char(s.take(1)[0]) + escape_string(
            s.take(1).drop_first(),
        ));
        assert(escape_string(s.take(1)) =~= escape_char(s[0]));
        assert(escape_string(s.take(0)) + escape_char(s[0]) =~= escape_char(s[0]));
    } else {
        let t = s.drop_first();
        assert(s.take(i + 1).drop_first() =~= t.take(i));
        assert(s.take(i).drop_first() =~= t.take(i - 1));
        lemma_escape_take_step(t, i - 1);
        assert(s.take(i + 1)[0] == s[0]);
        assert(s.take(i)[0] == s[0]);
        assert(escape_string(s.take(i + 1)) == escape_char(s[0]) + escape_string(t.take(i)));
        assert(escape_string(s.take(i)) == escape_char(s[0]) + escape_string(t.take(i - 1)));
        assert(t[i - 1] == s[i]);
        assert(escape_char(s[0]) + (escape_string(t.take(i - 1)) + escape_char(s[i])) =~= (
        escape_char(s[0]) + escape_string(t.take(i - 1))) + escape_char(s[i]));
    }
}

fn push_escaped(out: &mut String, c: char)
    ensures
        final(out)@ == old(out)@ + escape_char(c),
{
    if c == '"' {
        out.append("\\\"");
        proof {
            reveal_strlit("\\\"");
            assert("\\\""@ =~= escape_char(c));
        }
    } else if c == '\\' {
        out.append("\\\\");
        proof {
            reveal_strlit("\\\\");
            assert("\\\\"@ =~= escape_char(c));
        }
    } else if c == '\n' {
        out.append("\\n");
        proof {
            reveal_strlit("\\n");
            assert("\\n"@ =~= escape_char(c));
        }
    } else if c == '\r' {
        out.append("\\r");
        proof {
            reveal_strlit("\\r");
            assert("\\r"@ =~= escape_char(c));
        }
    } else if c == '\t' {
        out.append("\\t");
        proof {
            reveal_strlit("\\t");
            assert("\\t"@ =~= escape_char(c));
        }
    } else if c == '$' {
        out.append("\\$");
        proof {
            reveal_strlit("\\$");
            assert("\\$"@ =~= escape_char(c));
        }
    } else {
        out.push(c);
        proof {
            assert(old(out)@.push(c) =~= old(out)@ + escape_char(c));
        }
    }
}

/// Escapes a string for inclusion in double-quoted source text.
pub fn escape_nix_string(s: &str) -> (r: String)
    ensures
        r@ == escape_string(s@),
{
    let n = s.unicode_len();
    let mut out = String::new();
    let mut i: usize = 0;
    proof {
        assert(s@.take(0) =~= Seq::<char>::empty());
    }
    while i < n
        invariant
            0 <= i <= n,
            n == s@.len(),
            out@ == escape_string(s@.take(i as int)),
        decreases n - i,
    {
        let c = s.get_char(i);
        push_escaped(&mut out, c);
        proof {
            lemma_escape_take_step(s@, i as int);
        }
        i = i + 1;
    }
    proof {
        assert(s@.take(n as int) =~= s@);
    }
    out
}

/// The outcome of undoing escapes, starting at position `i` of `s`.
pub open spec fn unescape_from(s: Seq<char>, i: int) -> Result<Seq<char>, Seq<char>>
    decreases s.len() - i,
{
    if i < 0 || i >= s.len() {
        Ok(Seq::empty())
    } else if s[i] == '\\' {
        if i + 1 >= s.len() {
            Err("Unterminated escape sequence"@)
        } else {
            let c = s[i + 1];
            if c == 'n' || c == 'r' || c == 't' || c == '\\' || c == '"' || c == '$' {
                let u = if c == 'n' {
                    '\n'
                } else if c == 'r' {
                    '\r'
                } else if c == 't' {
                    '\t'
                } else {
                    c
                };
                match unescape_from(s, i + 2) {
                    Ok(rest) => Ok(seq![u] + rest),
                    Err(e) => Err(e),
                }
            } else {
                Err("Invalid escape sequence: \\"@.push(c))
            }
        }
    } else {
        match unescape_from(s, i + 1) {
            Ok(rest) => Ok(seq![s[i]] + rest),
            Err(e) => Err(e),
        }
    }
}

/// The meaning of a backslash-escaped string, or the error that it holds.
pub open spec fn unescape_string(s: Seq<char>) -> Result<Seq<char>, Seq<char>> {
    unescape_from(s, 0)
}

/// Undoes backslash escapes; reports an invalid or unterminated escape.
pub fn unescape_nix_string(s: &str) -> (r: Result<String, String>)
    ensures
        r matches Ok(t) ==> unescape_string(s@) == Ok::<Seq<char>, Seq<char>>(t@),
        r matches Err(e) ==> unescape_string(s@) == Err::<Seq<char>, Seq<char>>(e@),
{
    let n = s.unicode_len();
    let mut out = String::new();
    let mut i: usize = 0;
    while i < n
        invariant
            0 <= i <= n,
            n == s@.len(),
            unescape_from(s@, 0) == (match unescape_from(s@, i as int) {
                Ok(rest) => Ok::<Seq<char>, Seq<char>>(out@ + rest),
                Err(e) => Err::<Seq<char>, Seq<char>>(e),
            }),
        decreases n - i,
    {
        let c = s.get_char(i);
        if c == '\\' {
            if i + 1 >= n {
                let mut msg = String::new();
                msg.append("Unterminated escape sequence");
                proof {
                    reveal_strlit("Unterminated escape sequence");
                    assert(msg@ =~= "Unterminated escape sequence"@);
                }
                return Err(msg);
            }
            let e = s.get_char(i + 1);
            let ghost prev = out@;
            if e == 'n' {
                out.push('\n');
            } else if e == 'r' {
                out.push('\r');
            } else if e == 't' {
                out.push('\t');
            } else if e == '\\' || e == '"' || e == '$' {
                out.push(e);
            } else {
                let mut msg = String::new();
                msg.append("Invalid escape sequence: \\");
                msg.push(e);
                proof {
                    reveal_strlit("Invalid escape sequence: \\");
                    assert(msg@ =~= "Invalid escape sequence: \\"@.push(e));
                }
                return Err(msg);
            }
            proof {
                let u = if e == 'n' {
                    '\n'
                } else if e == 'r' {
                    '\r'
                } else if e == 't' {
                    '\t'
                } else {
                    e
                };
                assert(out@ == prev.push(u));
                assert(s@[i as int] == '\\');
                assert(s@[i + 1] == e);
                assert(unescape_from(s@, i as int) == (match unescape_from(s@, i + 2) {
                    Ok(rest) => Ok::<Seq<char>, Seq<char>>(seq![u] + rest),
                    Err(er) => Err::<Seq<char>, Seq<char>>(er),
                }));
                match unescape_from(s@, i + 2) {
                    Ok(rest) => {
                        assert(unescape_from(s@, 0) == Ok::<Seq<char>, Seq<char>>(
                            prev + (seq![u] + rest),
                        ));
                        assert(prev + (seq![u] + rest) =~= out@ + rest);
                    },
                    Err(er) => {
                        assert(unescape_from(s@, 0) == Err::<Seq<char>, Seq<char>>(er));
                    },
                }
            }
            i = i + 2;
        } else {
            let ghost prev = out@;
            out.push(c);
            proof {
                assert(out@ == prev.push(c));
                assert(s@[i as int] == c);
                assert(unescape_from(s@, i as int) == (match unescape_from(s@, i + 1) {
                    Ok(rest) => Ok::<Seq<char>, Seq<char>>(seq![c] + rest),
                    Err(er) => Err::<Seq<char>, Seq<char>>(er),
                }));
                match unescape_from(s@, i + 1) {
                    Ok(rest) => {
                        assert(unescape_from(s@, 0) == Ok::<Seq<char>, Seq<char>>(
                            prev + (seq![c] + rest),
                        ));
                        assert(prev + (seq![c] + rest) =~= out@ + rest);
                    },
                    Err(er) => {
                        assert(unescape_from(s@, 0) == Err::<Seq<char>, Seq<char>>(er));
                    },
                }
            }
            i = i + 1;
        }
    }
    proof {
        assert(unescape_from(s@, n as int) == Ok::<Seq<char>, Seq<char>>(Seq::empty()));
        assert(out@ + Seq::<char>::empty() =~= out@);
    }
    Ok(out)
}

/// The decimal digits of `n`, most significant first.
pub open spec fn dec_str(n: nat) -> Seq<char>
    decreases n,
{
    if n < 10 {
        seq![digit_char(n)]
    } else {
        dec_str(n / 10) + seq![digit_char(n % 10)]
    }
}

pub open spec fn digit_char(d: nat) -> char {
    ((48 + (d % 10)) as u8) as char
}

/// Writes `n` in decimal.
pub fn usize_to_string(n: usize) -> (r: String)
    ensures
        r@ == dec_str(n as nat),
{
    u64_to_string(n as u64)
}

/// Writes `n` in decimal.
pub fn u64_to_string(n: u64) -> (r: String)
    ensures
        r@ == dec_str(n as nat),
{
    let mut digits: Vec<char> = Vec::new();
    let mut m: u64 = n;
    loop
        invariant
            dec_str(n as nat) == (if m < 10 {
                seq![digit_char(m as nat)] + digits@.reverse()
            } else {
                dec_str((m / 10) as nat) + seq![digit_char((m % 10) as nat)] + digits@.reverse()
            }),
        decreases m,
    {
        let d = (m % 10) as u8;
        let c = (48 + d) as char;
        proof {
            assert(c == digit_char((m % 10) as nat));
        }
        if m < 10 {
            proof {
                assert(seq![digit_char(m as nat)] + digits@.reverse() == dec_str(n as nat));
            }
            let mut out = String::new();
            out.push(c);
            let mut j: usize = digits.len();
            proof {
                assert(digits@.skip(j as int) =~= Seq::<char>::empty());
                assert(out@ =~= seq![digit_char(m as nat)]);
            }
            while j > 0
                invariant
                    0 <= j <= digits@.len(),
                    out@ == seq![digit_char(m as nat)] + digits@.skip(j as int).reverse(),
                decreases j,
            {
                j = j - 1;
                out.push(digits[j]);
                proof {
                    assert(digits@.skip(j as int).reverse() =~= digits@.skip(
                        j as int + 1,
                    ).reverse().push(digits@[j as int]));
                    assert(out@ =~= seq![digit_char(m as nat)] + digits@.skip(
                        j as int,
                    ).reverse());
                }
            }
            proof {
                assert(digits@.skip(0) =~= digits@);
            }
            return out;
        } else {
            digits.push(c);
            proof {
                let ghost old_digits = digits@.drop_last();
                assert(digits@ =~= old_digits.push(digit_char((m % 10) as nat)));
                assert(digits@.reverse() =~= seq![digit_char((m % 10) as nat)]
                    + old_digits.reverse());
                let q = (m / 10) as nat;
                if q < 10 {
                    assert(dec_str(q) + seq![digit_char((m % 10) as nat)] + old_digits.reverse()
                        =~= seq![digit_char(q)] + digits@.reverse());
                } else {
                    assert(dec_str(q / 10) + seq![digit_char(q % 10)] + seq![
                        digit_char((m % 10) as nat),
                    ] + old_digits.reverse() =~= dec_str(q / 10) + seq![digit_char(q % 10)]
                        + digits@.reverse());
                    assert(dec_str(q) + seq![digit_char((m % 10) as nat)] + old_digits.reverse()
                        =~= dec_str(q / 10) + seq![digit_char(q % 10)] + digits@.reverse());
                }
            }
            m = m / 10;
        }
    }
}

/// Whether a path names a Nix source file: its base name ends in `.nix`
/// and holds something before that suffix.
pub open spec fn spec_is_nix_file(p: Seq<char>) -> bool {
    &&& p.len() >= 5
    &&& p.subrange(p.len() - 4, p.len() as int) == ".nix"@
    &&& p[p.len() - 5] != '/'
}

/// Whether a path names a Nix source file.
pub fn is_nix_file(path: &str) -> (r: bool)
    ensures
        r == spec_is_nix_file(path@),
{
    let n = path.unicode_len();
    if n < 5 {
        return false;
    }
    proof {
        reveal_strlit(".nix");
    }
    let ok = path.get_char(n - 4) == '.' && path.get_char(n - 3) == 'n' && path.get_char(n - 2)
        == 'i' && path.get_char(n - 1) == 'x' && path.get_char(n - 5) != '/';
    proof {
        if ok {
            assert(path@.subrange(n - 4, n as int) =~= ".nix"@);
        } else {
            if path@.subrange(n - 4, n as int) == ".nix"@ {
                assert(path@.subrange(n - 4, n as int)[0] == '.');
                assert(path@.subrange(n - 4, n as int)[1] == 'n');
                assert(path@.subrange(n - 4, n as int)[2] == 'i');
                assert(path@.subrange(n - 4, n as int)[3] == 'x');
            }
        }
    }
    ok
}

/// Whether a character is a decimal digit.
pub open spec fn is_digit_char(c: char) -> bool {
    '0' <= c && c <= '9'
}

/// The value of a digit sequence read in base ten.
pub open spec fn digits_val(s: Seq<char>) -> int
    decreases s.len(),
{
    if s.len() == 0 {
        0
    } else {
        digits_val(s.drop_last()) * 10 + (s.last() as u32 - 48)
    }
}

/// Ten to the power `n`.
pub open spec fn tenpow(n: nat) -> int
    decreases n,
{
    if n == 0 {
        1
    } else {
        10 * tenpow((n - 1) as nat)
    }
}

proof fn lemma_digits_val_bounds(s: Seq<char>)
    requires
        forall|i: int| 0 <= i < s.len() ==> is_digit_char(#[trigger] s[i]),
    ensures
        0 <= digits_val(s) < tenpow(s.len()),
    decreases s.len(),
{
    if s.len() > 0 {
        lemma_digits_val_bounds(s.drop_last());
        assert(is_digit_char(s[s.len() - 1]));
        assert(48 <= s.last() as u32 <= 57);
    }
}

proof fn lemma_digits_val_lower(s: Seq<char>)
    requires
        s.len() > 0,
        forall|i: int| 0 <= i < s.len() ==> is_digit_char(#[trigger] s[i]),
        s[0] != '0',
    ensures
        digits_val(s) >= tenpow((s.len() - 1) as nat),
    decreases s.len(),
{
    if s.len() == 1 {
        assert(is_digit_char(s[0]));
        assert(s.last() == s[0]);
        assert(s[0] as u32 >= 49);
        assert(digits_val(s) == digits_val(s.drop_last()) * 10 + (s.last() as u32 - 48));
        assert(s.drop_last().len() == 0);
    } else {
        let t = s.drop_last();
        assert(t[0] == s[0]);
        lemma_digits_val_lower(t);
        assert(is_digit_char(s[s.len() - 1]));
        assert(s.last() as u32 >= 48);
        assert(digits_val(s) == digits_val(t) * 10 + (s.last() as u32 - 48));
        assert(digits_val(t) * 10 >= tenpow((t.len() - 1) as nat) * 10);
    }
}

proof fn lemma_tenpow_20()
    ensures
        tenpow(19) == 0x8AC7230489E80000,
        tenpow(20) == 0x56BC75E2D63100000,
{
    assert(tenpow(0) == 1);
    assert(tenpow(1) == 10);
    assert(tenpow(2) == 100);
    assert(tenpow(3) == 1000);
    assert(tenpow(4) == 10000);
    assert(tenpow(5) == 100000);
    assert(tenpow(6) == 1000000);
    assert(tenpow(7) == 10000000);
    assert(tenpow(8) == 100000000);
    assert(tenpow(9) == 1000000000);
    assert(tenpow(10) == 10000000000);
    assert(tenpow(11) == 100000000000);
    assert(tenpow(12) == 1000000000000);
    assert(tenpow(13) == 10000000000000);
    assert(tenpow(14) == 100000000000000);
    assert(tenpow(15) == 1000000000000000);
    assert(tenpow(16) == 10000000000000000);
    assert(tenpow(17) == 100000000000000000);
    assert(tenpow(18) == 1000000000000000000);
    assert(tenpow(19) == 10000000000000000000);
    assert(tenpow(20) == 100000000000000000000);
}

/// The literal with a leading sign removed.
pub open spec fn sign_stripped(s: Seq<char>) -> Seq<char> {
    if s.len() > 0 && (s[0] == '-' || s[0] == '+') {
        s.drop_first()
    } else {
        s
    }
}

/// The integer a literal denotes: an optional sign, then one or more
/// digits; absent when malformed or outside the machine range.
pub open spec fn parse_i64_spec(s: Seq<char>) -> Option<i64> {
    let neg = s.len() > 0 && s[0] == '-';
    let ds = sign_stripped(s);
    if ds.len() == 0 || (exists|i: int| 0 <= i < ds.len() && !is_digit_char(ds[i])) {
        None
    } else {
        let v = if neg {
            -digits_val(ds)
        } else {
            digits_val(ds)
        };
        if i64::MIN <= v <= i64::MAX {
            Some(v as i64)
        } else {
            None
        }
    }
}

/// Reads an integer literal: an optional sign, then one or more digits.
pub fn parse_i64(s: &str) -> (r: Option<i64>)
    ensures
        r == parse_i64_spec(s@),
{
    let n = s.unicode_len();
    if n == 0 {
        return None;
    }
    let first = s.get_char(0);
    let neg = first == '-';
    let start: usize = if first == '-' || first == '+' {
        1
    } else {
        0
    };
    let ghost ds = sign_stripped(s@);
    proof {
        assert(ds.len() == n - start);
        assert(forall|i: int| 0 <= i < ds.len() ==> ds[i] == s@[i + start]);
    }
    if start >= n {
        return None;
    }
    // Reject any non-digit character first.
    let mut i: usize = start;
    while i < n
        invariant
            start <= i <= n,
            n == s@.len(),
            start < n,
            start == 0 || start == 1,
            ds == sign_stripped(s@),
            neg == (s@.len() > 0 && s@[0] == '-'),
            ds.len() == n - start,
            forall|j: int| 0 <= j < ds.len() ==> ds[j] == s@[j + start],
            forall|j: int| start <= j < i ==> is_digit_char(#[trigger] s@[j]),
        decreases n - i,
    {
        let c = s.get_char(i);
        if !(c >= '0' && c <= '9') {
            proof {
                assert(!is_digit_char(ds[i - start]));
                let w = i - start;
                assert(0 <= w < ds.len() && !is_digit_char(ds[w]));
                assert(exists|j: int| 0 <= j < ds.len() && !is_digit_char(ds[j]));
            }
            return None;
        }
        i = i + 1;
    }
    proof {
        assert(forall|j: int| 0 <= j < ds.len() ==> is_digit_char(#[trigger] ds[j]));
    }
    // Skip leading zeros.
    let mut z: usize = start;
    while z < n && s.get_char(z) == '0'
        invariant
            start <= z <= n,
            n == s@.len(),
            ds.len() == n - start,
            forall|j: int| 0 <= j < ds.len() ==> ds[j] == s@[j + start],
            forall|j: int| start <= j < z ==> s@[j] == '0',
        decreases n - z,
    {
        z = z + 1;
    }
    let ghost zs = ds.skip(z - start);
    proof {
        lemma_digits_zero_prefix(ds, z - start);
        assert(digits_val(zs) == digits_val(ds));
        assert(forall|j: int| 0 <= j < zs.len() ==> zs[j] == ds[j + (z - start)]);
        assert(forall|j: int| 0 <= j < zs.len() ==> is_digit_char(#[trigger] zs[j]));
    }
    if n - z > 19 {
        // Twenty or more significant digits always pass the machine range.
        proof {
            lemma_tenpow_20();
            assert(zs.len() >= 20);
            assert(zs[0] == ds[(z - start) as int]);
            assert(zs[0] == s@[z as int]);
            assert(zs[0] != '0');
            lemma_digits_val_lower(zs);
            lemma_tenpow_monotone(19, (zs.len() - 1) as nat);
            assert(digits_val(zs) >= tenpow(19));
            assert(digits_val(ds) > i64::MAX);
            assert(-digits_val(ds) < i64::MIN);
        }
        return None;
    }
    let mut acc: u64 = 0;
    let mut k: usize = z;
    proof {
        lemma_tenpow_20();
        assert(zs.take(0) =~= Seq::<char>::empty());
    }
    while k < n
        invariant
            z <= k <= n,
            n == s@.len(),
            n - z <= 19,
            start <= z,
            start == 0 || start == 1,
            ds.len() == n - start,
            zs == ds.skip(z - start),
            zs.len() == n - z,
            forall|j: int| 0 <= j < ds.len() ==> ds[j] == s@[j + start],
            forall|j: int| 0 <= j < zs.len() ==> is_digit_char(#[trigger] zs[j]),
            forall|j: int| z <= j < n ==> s@[j] == zs[j - z],
            acc == digits_val(zs.take(k - z)),
            acc < 0x8AC7230489E80000,
            tenpow(19) == 0x8AC7230489E80000,
            acc < tenpow((k - z) as nat),
        decreases n - k,
    {
        let c = s.get_char(k);
        proof {
            assert(s@[k as int] == zs[k - z]);
            assert(is_digit_char(zs[k - z]));
        }
        let d = (c as u32 - 48) as u64;
        proof {
            let p = zs.take(k - z + 1);
            assert(p.drop_last() =~= zs.take(k - z));
            assert(p.last() == zs[k - z]);
            lemma_digits_val_bounds(zs.take(k - z));
            lemma_tenpow_monotone((k - z + 1) as nat, 19);
            assert(tenpow((k - z + 1) as nat) == 10 * tenpow((k - z) as nat));
            assert(acc * 10 + d < tenpow((k - z + 1) as nat));
            assert(tenpow((k - z + 1) as nat) <= tenpow(19));
        }
        acc = acc * 10 + d;
        k = k + 1;
    }
    proof {
        assert(zs.take(n - z) =~= zs);
        assert(acc == digits_val(zs));
        assert(digits_val(ds) == digits_val(zs));
    }
    if neg {
        if acc > 0x8000000000000000u64 {
            proof {
                assert(-digits_val(ds) < i64::MIN);
            }
            return None;
        }
        if acc == 0x8000000000000000u64 {
            return Some(i64::MIN);
        }
        let v = acc as i64;
        return Some(0i64 - v);
    }
    if acc > 0x7FFFFFFFFFFFFFFFu64 {
        proof {
            assert(digits_val(ds) > i64::MAX);
        }
        return None;
    }
    Some(acc as i64)
}

proof fn lemma_tenpow_monotone(a: nat, b: nat)
    requires
        a <= b,
    ensures
        tenpow(a) <= tenpow(b),
        tenpow(a) >= 1,
    decreases b,
{
    if b > 0 {
        if a == b {
            lemma_tenpow_monotone((a - 1) as nat, (b - 1) as nat);
        } else {
            lemma_tenpow_monotone(a, (b - 1) as nat);
        }
    }
}

proof fn lemma_digits_zero_prefix(ds: Seq<char>, k: int)
    requires
        0 <= k <= ds.len(),
        forall|j: int| 0 <= j < k ==> ds[j] == '0',
    ensures
        digits_val(ds.skip(k)) == digits_val(ds),
    decreases ds.len(),
{
    if k == 0 {
        assert(ds.skip(0) =~= ds);
    } else if ds.len() == k {
        // All characters are zeros; both sides are zero.
        lemma_digits_all_zero(ds);
        assert(ds.skip(k) =~= Seq::<char>::empty());
    } else {
        let t = ds.drop_last();
        assert(forall|j: int| 0 <= j < k ==> t[j] == '0');
        lemma_digits_zero_prefix(t, k);
        assert(ds.skip(k).drop_last() =~= t.skip(k));
        assert(ds.skip(k).len() > 0);
        assert(ds.skip(k).last() == ds.last());
        assert(digits_val(ds.skip(k)) == digits_val(t.skip(k)) * 10 + (ds.last() as u32 - 48));
        assert(digits_val(ds) == digits_val(t) * 10 + (ds.last() as u32 - 48));
    }
}

proof fn lemma_digits_all_zero(ds: Seq<char>)
    requires
        forall|j: int| 0 <= j < ds.len() ==> ds[j] == '0',
    ensures
        digits_val(ds) == 0,
    decreases ds.len(),
{
    if ds.len() > 0 {
        let t = ds.drop_last();
        assert(forall|j: int| 0 <= j < t.len() ==> t[j] == '0');
        lemma_digits_all_zero(t);
        assert(ds.last() == ds[ds.len() - 1]);
        assert(ds.last() as u32 == 48);
    }
}

/// The pieces of `s` between full stops, from position `i` on.
pub open spec fn split_dots_from(s: Seq<char>, i: int) -> Seq<Seq<char>>
    decreases s.len() - i,
{
    if i < 0 || i > s.len() {
        Seq::empty()
    } else {
        let j = first_dot(s, i);
        if i <= j < s.len() {
            seq![s.subrange(i, j)] + split_dots_from(s, j + 1)
        } else {
            seq![s.subrange(i, s.len() as int)]
        }
    }
}

/// The position of the first full stop at or after `i`, or the length.
pub open spec fn first_dot(s: Seq<char>, i: int) -> int
    decreases s.len() - i,
{
    if i < 0 || i >= s.len() {
        s.len() as int
    } else if s[i] == '.' {
        i
    } else {
        first_dot(s, i + 1)
    }
}

/// The pieces of `s` between full stops; a string without one is a single
/// piece, and neighbouring stops give empty pieces.
pub open spec fn split_dots(s: Seq<char>) -> Seq<Seq<char>> {
    split_dots_from(s, 0)
}

/// Splits a string at full stops.
pub fn split_on_dots(s: &str) -> (r: Vec<String>)
    ensures
        r@.len() == split_dots(s@).len(),
        forall|i: int| 0 <= i < r@.len() ==> #[trigger] r@[i]@ == split_dots(s@)[i],
{
    let n = s.unicode_len();
    let mut out: Vec<String> = Vec::new();
    let mut piece = String::new();
    let mut i: usize = 0;
    let ghost pieces = split_dots(s@);
    let ghost mut seg_start: int = 0;
    proof {
        lemma_split_dots_shape(s@, 0);
    }
    while i < n
        invariant
            0 <= i <= n,
            n == s@.len(),
            0 <= seg_start <= i,
            pieces == split_dots(s@),
            forall|j: int| seg_start <= j < i ==> s@[j] != '.',
            piece@ == s@.subrange(seg_start, i as int),
            out@.len() <= pieces.len(),
            split_dots_from(s@, seg_start) == pieces.skip(out@.len() as int),
            forall|j: int| 0 <= j < out@.len() ==> #[trigger] out@[j]@ == pieces[j],
            pieces.len() >= out@.len() + 1,
        decreases n - i,
    {
        let c = s.get_char(i);
        if c == '.' {
            proof {
                assert(first_dot(s@, seg_start) == i) by {
                    lemma_first_dot_exact(s@, seg_start, i as int);
                }
                assert(split_dots_from(s@, seg_start) == seq![
                    s@.subrange(seg_start, i as int),
                ] + split_dots_from(s@, i + 1));
                lemma_split_dots_shape(s@, i + 1);
                assert(pieces.skip(out@.len() as int)[0] == s@.subrange(seg_start, i as int));
                assert(pieces.skip(out@.len() as int)[0] == pieces[out@.len() as int]);
                assert(pieces[out@.len() as int] == s@.subrange(seg_start, i as int));
                assert(pieces.skip(out@.len() as int).drop_first() =~= pieces.skip(
                    out@.len() as int + 1,
                ));
            }
            out.push(piece);
            piece = String::new();
            proof {
                seg_start = i + 1;
                assert(piece@ =~= s@.subrange(seg_start, i + 1));
            }
        } else {
            piece.push(c);
            proof {
                assert(piece@ =~= s@.subrange(seg_start, i + 1));
            }
        }
        i = i + 1;
    }
    proof {
        assert(first_dot(s@, seg_start) == s@.len()) by {
            lemma_first_dot_none(s@, seg_start);
        }
        assert(split_dots_from(s@, seg_start) == seq![s@.subrange(seg_start, s@.len() as int)]);
        assert(pieces.skip(out@.len() as int) =~= seq![s@.subrange(seg_start, s@.len() as int)]);
        assert(pieces.len() == out@.len() + 1);
        assert(pieces.skip(out@.len() as int)[0] == pieces[out@.len() as int]);
        assert(pieces[out@.len() as int] == s@.subrange(seg_start, s@.len() as int));
    }
    out.push(piece);
    out
}

proof fn lemma_first_dot_exact(s: Seq<char>, i: int, j: int)
    requires
        0 <= i <= j < s.len(),
        forall|k: int| i <= k < j ==> s[k] != '.',
        s[j] == '.',
    ensures
        first_dot(s, i) == j,
    decreases j - i,
{
    if i < j {
        lemma_first_dot_exact(s, i + 1, j);
    }
}

proof fn lemma_first_dot_none(s: Seq<char>, i: int)
    requires
        0 <= i <= s.len(),
        forall|k: int| i <= k < s.len() ==> s[k] != '.',
    ensures
        first_dot(s, i) == s.len(),
    decreases s.len() - i,
{
    if i < s.len() {
        lemma_first_dot_none(s, i + 1);
    }
}

proof fn lemma_split_dots_shape(s: Seq<char>, i: int)
    requires
        0 <= i <= s.len(),
    ensures
        split_dots_from(s, i).len() >= 1,
    decreases s.len() - i,
{
    let j = first_dot(s, i);
    if j < s.len() {
        lemma_first_dot_bounds(s, i);
        lemma_split_dots_shape(s, j + 1);
    }
}

proof fn lemma_first_dot_bounds(s: Seq<char>, i: int)
    requires
        0 <= i <= s.len(),
    ensures
        i <= first_dot(s, i) <= s.len(),
    decreases s.len() - i,
{
    if i < s.len() && s[i] != '.' {
        lemma_first_dot_bounds(s, i + 1);
    }
}

} // verus!
