//! Identifier policy: deterministic sanitization of arbitrary strings into
//! kernel-legal probe event names, the prefix conventions that distinguish
//! entry from return probes, and the lowercase-hexadecimal address suffix
//! used by user-space probe names.

use vstd::prelude::*;

verus! {

/// A character the kernel accepts in an event identifier: an ASCII letter,
/// an ASCII digit, or an underscore.
pub open spec fn is_ident_char(c: char) -> bool {
    (48 <= c as u32 && c as u32 <= 57)  // '0' ..= '9'
    || (65 <= c as u32 && c as u32 <= 90)  // 'A' ..= 'Z'
    || (97 <= c as u32 && c as u32 <= 122)  // 'a' ..= 'z'
    || c == '_'
}

/// The string holds no NUL character.  Every raw string that crosses the
/// kernel boundary must satisfy this; inputs that do not are rejected.
pub open spec fn nul_free(s: Seq<char>) -> bool {
    forall|i: int| 0 <= i < s.len() ==> (#[trigger] s[i]) as u32 != 0
}

/// The sanitized form of a string: characters the kernel accepts are kept,
/// every other character becomes an underscore.
pub open spec fn sanitized(s: Seq<char>) -> Seq<char> {
    s.map_values(|c: char| if is_ident_char(c) { c } else { '_' })
}

/// Reports whether `s` is free of NUL characters.
pub fn check_nul_free(s: &str) -> (b: bool)
    ensures
        b == nul_free(s@),
{
    let n: usize = s.unicode_len();
    let mut i: usize = 0;
    while i < n
        invariant
            i <= n,
            n == s@.len(),
            forall|j: int| 0 <= j < i ==> (#[trigger] s@[j]) as u32 != 0,
        decreases n - i,
    {
        let c = s.get_char(i);
        if c as u32 == 0 {
            assert(!nul_free(s@));
            return false;
        }
        i += 1;
    }
    true
}

/// Maps `s` to its sanitized form: kernel-legal characters are copied
/// through, every other character becomes an underscore.
pub fn make_alphanumeric(s: &str) -> (r: String)
    ensures
        r@ == sanitized(s@),
{
    let n: usize = s.unicode_len();
    let mut out = String::new();
    let mut i: usize = 0;
    while i < n
        invariant
            i <= n,
            n == s@.len(),
            out@ == sanitized(s@.take(i as int)),
        decreases n - i,
    {
        let c = s.get_char(i);
        let u: u32 = c as u32;
        if (48 <= u && u <= 57) || (65 <= u && u <= 90) || (97 <= u && u <= 122) || u == 95 {
            let piece = s.substring_char(i, i + 1);
            out.append(piece);
        } else {
            proof {
                reveal_strlit("_");
            }
            out.append("_");
        }
        proof {
            let prev = s@.take(i as int);
            let kept = if is_ident_char(s@[i as int]) {
                s@[i as int]
            } else {
                '_'
            };
            assert(s@.take(i + 1 as int) =~= prev.push(s@[i as int]));
            assert(sanitized(s@.take(i + 1 as int)) =~= sanitized(prev).push(kept));
        }
        i += 1;
    }
    proof {
        assert(s@.take(n as int) =~= s@);
    }
    out
}

/// Sanitizing is idempotent: a string already in sanitized form is left
/// unchanged, so applying the map twice equals applying it once.
pub proof fn lemma_sanitized_idempotent(s: Seq<char>)
    ensures
        sanitized(sanitized(s)) == sanitized(s),
{
    assert forall|i: int| 0 <= i < s.len() implies is_ident_char(#[trigger] sanitized(s)[i]) by {
        assert(is_ident_char('_'));
    }
    assert(sanitized(sanitized(s)) =~= sanitized(s));
}

/// What sanitizing does, character by character: the length is kept, a
/// kernel-legal character is copied through, and every character outside
/// the legal set becomes the one fixed replacement, an underscore.
pub proof fn lemma_sanitized_maps(s: Seq<char>)
    ensures
        sanitized(s).len() == s.len(),
        forall|i: int|
            0 <= i < s.len() && is_ident_char(s[i]) ==> #[trigger] sanitized(s)[i] == s[i],
        forall|i: int|
            0 <= i < s.len() && !is_ident_char(s[i]) ==> #[trigger] sanitized(s)[i] == '_',
        forall|i: int| 0 <= i < s.len() ==> is_ident_char(#[trigger] sanitized(s)[i]),
{
    assert forall|i: int| 0 <= i < s.len() implies is_ident_char(#[trigger] sanitized(s)[i]) by {
        assert(is_ident_char('_'));
    }
}

/// A kernel-legal identifier character is never NUL, so a sanitized string
/// is NUL-free whatever the input held.
pub proof fn lemma_sanitized_nul_free(s: Seq<char>)
    ensures
        nul_free(sanitized(s)),
{
    lemma_sanitized_maps(s);
}

/// The lowercase hexadecimal digit for a value below sixteen.
pub open spec fn hex_digit(d: int) -> char
    recommends
        0 <= d < 16,
{
    if d == 0 {
        '0'
    } else if d == 1 {
        '1'
    } else if d == 2 {
        '2'
    } else if d == 3 {
        '3'
    } else if d == 4 {
        '4'
    } else if d == 5 {
        '5'
    } else if d == 6 {
        '6'
    } else if d == 7 {
        '7'
    } else if d == 8 {
        '8'
    } else if d == 9 {
        '9'
    } else if d == 10 {
        'a'
    } else if d == 11 {
        'b'
    } else if d == 12 {
        'c'
    } else if d == 13 {
        'd'
    } else if d == 14 {
        'e'
    } else {
        'f'
    }
}

/// The lowercase hexadecimal rendering of `n`, most significant digit
/// first, with no leading zeros (`0` itself renders as the one digit `0`).
pub open spec fn hex_seq(n: nat) -> Seq<char>
    decreases n,
{
    if n < 16 {
        seq![hex_digit(n as int)]
    } else {
        hex_seq(n / 16).push(hex_digit((n % 16) as int))
    }
}

fn hex_digit_str(d: u64) -> (r: &'static str)
    requires
        d < 16,
    ensures
        r@ == seq![hex_digit(d as int)],
{
    let r: &'static str = if d == 0 {
        "0"
    } else if d == 1 {
        "1"
    } else if d == 2 {
        "2"
    } else if d == 3 {
        "3"
    } else if d == 4 {
        "4"
    } else if d == 5 {
        "5"
    } else if d == 6 {
        "6"
    } else if d == 7 {
        "7"
    } else if d == 8 {
        "8"
    } else if d == 9 {
        "9"
    } else if d == 10 {
        "a"
    } else if d == 11 {
        "b"
    } else if d == 12 {
        "c"
    } else if d == 13 {
        "d"
    } else if d == 14 {
        "e"
    } else {
        "f"
    };
    proof {
        reveal_strlit("0");
        reveal_strlit("1");
        reveal_strlit("2");
        reveal_strlit("3");
        reveal_strlit("4");
        reveal_strlit("5");
        reveal_strlit("6");
        reveal_strlit("7");
        reveal_strlit("8");
        reveal_strlit("9");
        reveal_strlit("a");
        reveal_strlit("b");
        reveal_strlit("c");
        reveal_strlit("d");
        reveal_strlit("e");
        reveal_strlit("f");
        assert(r@ =~= seq![hex_digit(d as int)]);
    }
    r
}

/// Renders `n` in lowercase hexadecimal with no leading zeros.
pub fn hex_string(n: u64) -> (r: String)
    ensures
        r@ == hex_seq(n as nat),
    decreases n,
{
    if n < 16 {
        String::from_str(hex_digit_str(n))
    } else {
        let mut out = hex_string(n / 16);
        out.append(hex_digit_str(n % 16));
        proof {
            assert(hex_seq((n / 16) as nat).push(hex_digit((n % 16) as int)) =~= hex_seq(
                (n / 16) as nat,
            ) + seq![hex_digit((n % 16) as int)]);
        }
        out
    }
}

/// Every character of a hexadecimal rendering is a kernel-legal identifier
/// character, so in particular the rendering is NUL-free.
pub proof fn lemma_hex_seq_ident(n: nat)
    ensures
        hex_seq(n).len() >= 1,
        forall|i: int| 0 <= i < hex_seq(n).len() ==> is_ident_char(#[trigger] hex_seq(n)[i]),
        nul_free(hex_seq(n)),
    decreases n,
{
    if n >= 16 {
        lemma_hex_seq_ident(n / 16);
    }
}

/// The event name of a function-entry probe: `p_` before the sanitized
/// function name.
pub open spec fn entry_name(function: Seq<char>) -> Seq<char> {
    seq!['p', '_'] + sanitized(function)
}

/// The event name of a function-return probe: `r_` before the sanitized
/// function name.
pub open spec fn return_name(function: Seq<char>) -> Seq<char> {
    seq!['r', '_'] + sanitized(function)
}

/// The event name of a user-space probe: `r_`, the sanitized binary path,
/// then `_0x` and the resolved load address in lowercase hexadecimal.  The
/// `r_` prefix is used for both probe directions here, matching the
/// convention this layer inherited.
pub open spec fn uprobe_name(path: Seq<char>, address: u64) -> Seq<char> {
    seq!['r', '_'] + sanitized(path) + seq!['_', '0', 'x'] + hex_seq(address as nat)
}

/// Builds the entry-probe event name `p_` + sanitized function name.
pub fn entry_probe_name(function: &str) -> (r: String)
    ensures
        r@ == entry_name(function@),
{
    let mut out = String::from_str("p_");
    out.append(make_alphanumeric(function).as_str());
    proof {
        reveal_strlit("p_");
        assert("p_"@ =~= seq!['p', '_']);
    }
    out
}

/// Builds the return-probe event name `r_` + sanitized function name.
pub fn return_probe_name(function: &str) -> (r: String)
    ensures
        r@ == return_name(function@),
{
    let mut out = String::from_str("r_");
    out.append(make_alphanumeric(function).as_str());
    proof {
        reveal_strlit("r_");
        assert("r_"@ =~= seq!['r', '_']);
    }
    out
}

/// Builds the user-space probe event name from the resolved binary path
/// and load address.
pub fn uprobe_event_name(path: &str, address: u64) -> (r: String)
    ensures
        r@ == uprobe_name(path@, address),
{
    let mut out = String::from_str("r_");
    out.append(make_alphanumeric(path).as_str());
    out.append("_0x");
    out.append(hex_string(address).as_str());
    proof {
        reveal_strlit("r_");
        reveal_strlit("_0x");
        assert("r_"@ =~= seq!['r', '_']);
        assert("_0x"@ =~= seq!['_', '0', 'x']);
    }
    out
}

/// Probe event names are NUL-free whatever the input held: the prefixes
/// are fixed legal characters and sanitization removes anything illegal.
pub proof fn lemma_probe_names_nul_free(function: Seq<char>)
    ensures
        nul_free(entry_name(function)),
        nul_free(return_name(function)),
{
    lemma_sanitized_nul_free(function);
}

/// User-space probe event names are NUL-free whatever the path held: the
/// fixed pieces are legal characters, sanitization removes anything
/// illegal, and hexadecimal digits are legal.
pub proof fn lemma_uprobe_name_nul_free(path: Seq<char>, address: u64)
    ensures
        nul_free(uprobe_name(path, address)),
{
    lemma_sanitized_nul_free(path);
    lemma_hex_seq_ident(address as nat);
}

} // verus!
