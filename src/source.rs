//! Turning what the system reports into fact values.
//!
//! The caller reads environment variables and files; these functions pick
//! the value out of what was read. A source that could not be read, or that
//! holds nothing usable, gives an empty value.

use vstd::prelude::*;
use crate::scan::{after_last, before_first, find, find_from, first_segment, last_segment};

verus! {

/// The text of a variable that may be unset; empty when unset.
pub open spec fn or_empty(var: Option<String>) -> Seq<char> {
    match var {
        Some(v) => v@,
        None => Seq::empty(),
    }
}

/// The last of `lines`; empty when there is none.
pub open spec fn last_line(lines: Seq<String>) -> Seq<char> {
    if lines.len() == 0 {
        Seq::empty()
    } else {
        lines.last()@
    }
}

pub open spec fn pretty_key() -> Seq<char> {
    seq!['P', 'R', 'E', 'T', 'T', 'Y', '_', 'N', 'A', 'M', 'E', '=', '"']
}

/// An os-release line that sets the pretty name.
pub open spec fn is_pretty_line(l: Seq<char>) -> bool {
    l.len() >= 13 && l.subrange(0, 13) == pretty_key()
}

/// The quoted name on such a line: what follows the opening quote, less the
/// closing one.
pub open spec fn pretty_value(l: Seq<char>) -> Seq<char> {
    if l.len() >= 14 {
        l.subrange(13, l.len() - 1)
    } else {
        Seq::empty()
    }
}

/// The pretty name of the last line of os-release that sets one.
pub open spec fn distro_of(lines: Seq<String>) -> Seq<char>
    decreases lines.len(),
{
    if lines.len() == 0 {
        Seq::empty()
    } else if is_pretty_line(lines.last()@) {
        pretty_value(lines.last()@)
    } else {
        distro_of(lines.drop_last())
    }
}

fn own(s: &str) -> (r: String)
    ensures
        r@ == s@,
{
    String::from_str(s)
}

/// The value of a variable, or an empty string when it is unset.
pub fn get_username(var: Option<String>) -> (r: String)
    ensures
        r@ == or_empty(var),
{
    match var {
        Some(v) => v,
        None => String::new(),
    }
}

/// The window manager's session name, or an empty string when unset.
pub fn get_wm(var: Option<String>) -> (r: String)
    ensures
        r@ == or_empty(var),
{
    match var {
        Some(v) => v,
        None => String::new(),
    }
}

/// The host name: the last line of the host-name file.
pub fn get_hostname(lines: &Vec<String>) -> (r: String)
    ensures
        r@ == last_line(lines@),
{
    if lines.len() == 0 {
        String::new()
    } else {
        lines[lines.len() - 1].clone()
    }
}

/// The distribution's pretty name, from the lines of os-release.
pub fn get_distro(lines: &Vec<String>) -> (r: String)
    ensures
        r@ == distro_of(lines@),
{
    let key = "PRETTY_NAME=\"";
    proof {
        reveal_strlit("PRETTY_NAME=\"");
        assert(key@ =~= pretty_key());
    }
    let mut r = String::new();
    let mut i: usize = 0;
    while i < lines.len()
        invariant
            i <= lines@.len(),
            key@ == pretty_key(),
            r@ == distro_of(lines@.subrange(0, i as int)),
        decreases lines@.len() - i,
    {
        let l = lines[i].as_str();
        proof {
            assert(lines@.subrange(0, i as int + 1).drop_last() =~= lines@.subrange(0, i as int));
        }
        if crate::scan::occurs_at(l, key, 0) {
            let n = l.unicode_len();
            if n >= 14 {
                r = own(l.substring_char(13, n - 1));
            } else {
                r = String::new();
            }
        }
        i = i + 1;
    }
    assert(lines@.subrange(0, lines@.len() as int) =~= lines@);
    r
}

/// The login shell's name: the last part of its path.
pub fn get_shell(var: Option<String>) -> (r: String)
    ensures
        r@ == after_last(or_empty(var), '/'),
{
    match var {
        Some(v) => own(last_segment(v.as_str(), '/')),
        None => {
            let r = String::new();
            assert(after_last(Seq::<char>::empty(), '/') == Seq::<char>::empty());
            r
        },
    }
}

pub open spec fn xterm_prefix() -> Seq<char> {
    seq!['x', 't', 'e', 'r', 'm', '-']
}

/// The terminal name: for an `xterm-` variant, the part after its last `-`;
/// otherwise the whole value.
pub open spec fn term_of(t: Seq<char>) -> Seq<char> {
    if find_from(t, xterm_prefix(), 0) is Some {
        after_last(t, '-')
    } else {
        t
    }
}

/// The terminal's name, from the terminal-type variable.
pub fn get_term(var: Option<String>) -> (r: String)
    ensures
        r@ == term_of(or_empty(var)),
{
    proof {
        reveal_strlit("xterm-");
    }
    match var {
        Some(v) => {
            let pat = "xterm-";
            assert(pat@ =~= xterm_prefix());
            if find(v.as_str(), pat).is_some() {
                own(last_segment(v.as_str(), '-'))
            } else {
                v
            }
        },
        None => String::new(),
    }
}

pub open spec fn version_key() -> Seq<char> {
    seq!['v', 'e', 'r', 's', 'i', 'o', 'n', ' ']
}

pub open spec fn paren_key() -> Seq<char> {
    seq![' ', '(']
}

/// The kernel release in the kernel's version banner: the text between the
/// first `version ` and the first ` (`; empty when either is missing or they
/// are out of order.
pub open spec fn kernel_of(t: Seq<char>) -> Seq<char> {
    match (find_from(t, version_key(), 0), find_from(t, paren_key(), 0)) {
        (Some(a), Some(b)) => if a + 8 <= b {
            t.subrange(a as int + 8, b as int)
        } else {
            Seq::empty()
        },
        _ => Seq::empty(),
    }
}

/// The kernel release, from the kernel's version banner.
pub fn get_kernel(text: &str) -> (r: String)
    ensures
        r@ == kernel_of(text@),
{
    proof {
        reveal_strlit("version ");
        reveal_strlit(" (");
    }
    let vk = "version ";
    let pk = " (";
    assert(vk@ =~= version_key());
    assert(pk@ =~= paren_key());
    match (find(text, vk), find(text, pk)) {
        (Some(a), Some(b)) => {
            if a <= b && 8 <= b - a {
                own(text.substring_char(a + 8, b))
            } else {
                String::new()
            }
        },
        _ => String::new(),
    }
}

/// The character for a digit below ten.
pub open spec fn digit_char(d: nat) -> char {
    seq!['0', '1', '2', '3', '4', '5', '6', '7', '8', '9'][d as int]
}

/// `n` in decimal, without leading zeros.
pub open spec fn decimal(n: nat) -> Seq<char>
    decreases n,
{
    if n < 10 {
        seq![digit_char(n)]
    } else {
        decimal(n / 10).push(digit_char(n % 10))
    }
}

/// The value of a digit character.
pub open spec fn digit_value(c: char) -> int {
    (c as u32) as int - 48
}

pub open spec fn is_digits(s: Seq<char>) -> bool {
    forall|i: int| 0 <= i < s.len() ==> 48 <= #[trigger] (s[i] as u32) <= 57
}

/// The number that a string of decimal digits spells.
pub open spec fn digits_value(s: Seq<char>) -> int
    decreases s.len(),
{
    if s.len() == 0 {
        0
    } else {
        digits_value(s.drop_last()) * 10 + digit_value(s.last())
    }
}

/// The whole seconds of the uptime file: the digits before the first space
/// and the first point, when they spell a number that fits an `i32`.
pub open spec fn uptime_seconds(t: Seq<char>) -> Option<int> {
    let w = before_first(before_first(t, ' '), '.');
    if w.len() > 0 && is_digits(w) && digits_value(w) <= 0x7fff_ffff {
        Some(digits_value(w))
    } else {
        None
    }
}

/// An uptime as `{days}d {hours}h {minutes}m`, leaving out each part that is
/// zero.
pub open spec fn uptime_text(secs: nat) -> Seq<char> {
    let d = secs / 86400;
    let h = secs % 86400 / 3600;
    let m = secs % 3600 / 60;
    (if d > 0 {
        decimal(d) + seq!['d', ' ']
    } else {
        Seq::empty()
    }) + (if h > 0 {
        decimal(h) + seq!['h', ' ']
    } else {
        Seq::empty()
    }) + (if m > 0 {
        decimal(m) + seq!['m']
    } else {
        Seq::empty()
    })
}

/// The uptime fact's value: formatted when the file's text holds a number of
/// seconds, empty otherwise.
pub open spec fn uptime_of(t: Seq<char>) -> Seq<char> {
    match uptime_seconds(t) {
        Some(s) => uptime_text(s as nat),
        None => Seq::empty(),
    }
}

fn digit_text(d: u32) -> (r: &'static str)
    requires
        d < 10,
    ensures
        r@ == seq![digit_char(d as nat)],
{
    let all = "0123456789";
    proof {
        reveal_strlit("0123456789");
        assert(all@ =~= seq!['0', '1', '2', '3', '4', '5', '6', '7', '8', '9']);
    }
    let r = all.substring_char(d as usize, d as usize + 1);
    assert(r@ =~= seq![digit_char(d as nat)]);
    r
}

/// `n` written in decimal.
pub fn to_decimal(n: u32) -> (r: String)
    ensures
        r@ == decimal(n as nat),
    decreases n,
{
    if n < 10 {
        own(digit_text(n))
    } else {
        let mut r = to_decimal(n / 10);
        r.append(digit_text(n % 10));
        r
    }
}

proof fn lemma_digits_grow(s: Seq<char>, i: int)
    requires
        is_digits(s),
        0 <= i <= s.len(),
    ensures
        digits_value(s) >= digits_value(s.subrange(0, i)),
        digits_value(s.subrange(0, i)) >= 0,
    decreases s.len() - i,
{
    lemma_digits_nonneg(s.subrange(0, i));
    if i < s.len() {
        lemma_digits_grow(s, i + 1);
        let p = s.subrange(0, i + 1);
        assert(p.drop_last() =~= s.subrange(0, i));
        assert(48 <= (s[i] as u32) <= 57);
    } else {
        assert(s.subrange(0, i) =~= s);
    }
}

proof fn lemma_digits_nonneg(s: Seq<char>)
    requires
        is_digits(s),
    ensures
        digits_value(s) >= 0,
    decreases s.len(),
{
    if s.len() > 0 {
        assert(48 <= (s[s.len() - 1] as u32) <= 57);
        lemma_digits_nonneg(s.drop_last());
    }
}

/// Reads the whole seconds of the uptime file's text.
pub fn parse_seconds(text: &str) -> (r: Option<u32>)
    ensures
        r matches Some(v) ==> uptime_seconds(text@) == Some(v as int),
        r is None ==> uptime_seconds(text@) is None,
{
    let w = first_segment(first_segment(text, ' '), '.');
    let n = w.unicode_len();
    if n == 0 {
        return None;
    }
    let mut acc: u32 = 0;
    let mut i: usize = 0;
    while i < n
        invariant
            n == w@.len(),
            w@ == before_first(before_first(text@, ' '), '.'),
            i <= n,
            is_digits(w@.subrange(0, i as int)),
            acc as int == digits_value(w@.subrange(0, i as int)),
            acc <= 0x7fff_ffff,
        decreases n - i,
    {
        let c = w.get_char(i);
        let ghost p = w@.subrange(0, i as int + 1);
        proof {
            assert(p.drop_last() =~= w@.subrange(0, i as int));
        }
        if (c as u32) < 48 || (c as u32) > 57 {
            assert(!is_digits(w@)) by {
                assert(w@[i as int] == c);
            }
            return None;
        }
        assert(is_digits(p)) by {
            assert forall|j: int| 0 <= j < p.len() implies 48 <= #[trigger] (p[j] as u32) <= 57 by {
                if j < i {
                    assert(p[j] == w@.subrange(0, i as int)[j]);
                }
            }
        }
        let d = (c as u32) - 48;
        if acc > (0x7fff_ffff - d) / 10 {
            proof {
                if is_digits(w@) {
                    lemma_digits_grow(w@, i as int + 1);
                }
            }
            return None;
        }
        acc = acc * 10 + d;
        i = i + 1;
    }
    assert(w@.subrange(0, n as int) =~= w@);
    Some(acc)
}

/// Formats an uptime given in whole seconds.
pub fn format_uptime(secs: u32) -> (r: String)
    ensures
        r@ == uptime_text(secs as nat),
{
    proof {
        reveal_strlit("d ");
        reveal_strlit("h ");
        reveal_strlit("m");
    }
    let d = secs / 86400;
    let h = secs % 86400 / 3600;
    let m = secs % 3600 / 60;
    let mut r = String::new();
    if d > 0 {
        r.append(to_decimal(d).as_str());
        r.append("d ");
    }
    if h > 0 {
        r.append(to_decimal(h).as_str());
        r.append("h ");
    }
    if m > 0 {
        r.append(to_decimal(m).as_str());
        r.append("m");
    }
    assert(r@ =~= uptime_text(secs as nat));
    r
}

/// The uptime fact's value, from the uptime file's text.
pub fn get_uptime(text: &str) -> (r: String)
    ensures
        r@ == uptime_of(text@),
{
    match parse_seconds(text) {
        Some(s) => format_uptime(s),
        None => String::new(),
    }
}

} // verus!
