use vstd::prelude::*;

verus! {

/// The character of a decimal digit `d` (0 to 9).
pub open spec fn digit_char(d: nat) -> char {
    ((d + 48) as u8) as char
}

/// Decimal notation of `n`, without leading zeros.
pub open spec fn decimal(n: nat) -> Seq<char>
    decreases n,
{
    if n < 10 {
        seq![digit_char(n)]
    } else {
        decimal(n / 10).push(digit_char(n % 10))
    }
}

/// Appends one character to a string.
/// Trusted: `String::push` appends `c` at the end, as std documents.
#[verifier::external_body]
fn push_char(s: &mut String, c: char)
    ensures
        final(s)@ == old(s)@.push(c),
{
    s.push(c);
}

fn push_digit(s: &mut String, d: u64)
    requires
        d < 10,
    ensures
        final(s)@ == old(s)@.push(digit_char(d as nat)),
{
    let b: u8 = (d as u8) + 48;
    push_char(s, b as char);
}

/// Appends the decimal notation of `n`.
fn push_decimal(s: &mut String, n: u64)
    ensures
        final(s)@ == old(s)@ + decimal(n as nat),
    decreases n,
{
    if n >= 10 {
        push_decimal(s, n / 10);
        push_digit(s, n % 10);
    } else {
        push_digit(s, n);
    }
}

/// A clock field padded with zeros to two places, as `{:02}` writes it.
pub open spec fn two_places(n: nat) -> Seq<char> {
    if n < 10 {
        seq!['0'] + decimal(n)
    } else {
        decimal(n)
    }
}

fn push_two_places(s: &mut String, n: u64)
    ensures
        final(s)@ == old(s)@ + two_places(n as nat),
{
    if n < 10 {
        push_char(s, '0');
        push_digit(s, n);
        assert(final(s)@ =~= old(s)@ + two_places(n as nat));
    } else {
        push_decimal(s, n);
    }
}

/// How the tray shows `sec` seconds: `h:mm:ss` from one hour up, `m:ss`
/// below, and a negative count as zero.
pub open spec fn tray_text(sec: int) -> Seq<char> {
    let s: nat = if sec < 0 { 0 } else { sec as nat };
    let h = s / 3600;
    let m = (s % 3600) / 60;
    let x = s % 60;
    if h > 0 {
        decimal(h) + seq![':'] + two_places(m) + seq![':'] + two_places(x)
    } else {
        decimal(m) + seq![':'] + two_places(x)
    }
}

/// Formats a remaining time in seconds for the menu-bar countdown.
pub fn fmt_tray(sec: i64) -> (r: String)
    ensures
        r@ == tray_text(sec as int),
{
    let s: u64 = if sec < 0 { 0 } else { sec as u64 };
    let h = s / 3600;
    let m = (s % 3600) / 60;
    let x = s % 60;
    let mut out = String::new();
    if h > 0 {
        push_decimal(&mut out, h);
        push_char(&mut out, ':');
        push_two_places(&mut out, m);
        push_char(&mut out, ':');
        push_two_places(&mut out, x);
    } else {
        push_decimal(&mut out, m);
        push_char(&mut out, ':');
        push_two_places(&mut out, x);
    }
    assert(out@ =~= tray_text(sec as int));
    out
}

/// ASCII letters and digits: what `char::is_ascii_alphanumeric` accepts.
pub open spec fn is_ascii_alnum(c: char) -> bool {
    ||| ('0' <= c && c <= '9')
    ||| ('a' <= c && c <= 'z')
    ||| ('A' <= c && c <= 'Z')
}

fn ascii_alnum(c: char) -> (r: bool)
    ensures
        r == is_ascii_alnum(c),
{
    ('0' <= c && c <= '9') || ('a' <= c && c <= 'z') || ('A' <= c && c <= 'Z')
}

/// The characters of `s` that are ASCII letters or digits, in order.
pub open spec fn alnum_only(s: Seq<char>) -> Seq<char> {
    s.filter(|c: char| is_ascii_alnum(c))
}

/// Keeps only the ASCII letters and digits of a sound name, so that it can
/// only ever name a file in the system sound folder.
pub fn clean_sound_name(name: &str) -> (r: String)
    ensures
        r@ == alnum_only(name@),
{
    let n = name.unicode_len();
    let mut out = String::new();
    let mut i: usize = 0;
    while i < n
        invariant
            n == name@.len(),
            i <= n,
            out@ == alnum_only(name@.take(i as int)),
        decreases n - i,
    {
        let c = name.get_char(i);
        proof {
            reveal(Seq::filter);
            assert(name@.take(i as int + 1).drop_last() =~= name@.take(i as int));
            assert(name@.take(i as int + 1).last() == c);
        }
        if ascii_alnum(c) {
            push_char(&mut out, c);
        }
        i = i + 1;
    }
    assert(name@.take(n as int) =~= name@);
    out
}

/// Whether two texts are the same character sequence.
pub fn same_text(a: &str, b: &str) -> (r: bool)
    ensures
        r == (a@ == b@),
{
    let n = a.unicode_len();
    if n != b.unicode_len() {
        return false;
    }
    let mut i: usize = 0;
    while i < n
        invariant
            n == a@.len(),
            n == b@.len(),
            i <= n,
            forall|j: int| 0 <= j < i ==> a@[j] == b@[j],
        decreases n - i,
    {
        if a.get_char(i) != b.get_char(i) {
            return false;
        }
        i = i + 1;
    }
    assert(a@ =~= b@);
    true
}

/// The rest of `s` after `prefix`, when `s` starts with it.
pub fn strip_prefix_text<'a>(s: &'a str, prefix: &str) -> (r: Option<&'a str>)
    ensures
        r is Some <==> prefix@.is_prefix_of(s@),
        r matches Some(rest) ==> rest@ == s@.skip(prefix@.len() as int),
{
    let n = s.unicode_len();
    let p = prefix.unicode_len();
    if p > n {
        return None;
    }
    let mut i: usize = 0;
    while i < p
        invariant
            n == s@.len(),
            p == prefix@.len(),
            p <= n,
            i <= p,
            forall|j: int| 0 <= j < i ==> prefix@[j] == s@[j],
        decreases p - i,
    {
        if s.get_char(i) != prefix.get_char(i) {
            assert(!prefix@.is_prefix_of(s@));
            return None;
        }
        i = i + 1;
    }
    assert(prefix@ =~= s@.take(p as int));
    Some(s.substring_char(p, n))
}

/// Where the notification sound of a given name lives: an empty name means
/// the system's "Glass" sound.
pub open spec fn sound_file(name: Seq<char>) -> Seq<char> {
    "/System/Library/Sounds/"@ + (if name.len() == 0 {
        "Glass"@
    } else {
        name
    }) + ".aiff"@
}

/// The path of the system sound file for `name`.
pub fn sound_path(name: &str) -> (r: String)
    ensures
        r@ == sound_file(name@),
{
    let mut path = "/System/Library/Sounds/".to_owned();
    if name.unicode_len() == 0 {
        path.append("Glass");
    } else {
        path.append(name);
    }
    path.append(".aiff");
    path
}

/// The address prefix of links into the ClickUp web app.
pub open spec fn clickup_web() -> Seq<char> {
    "https://app.clickup.com/"@
}

/// The addresses to hand to the system opener for a link, in order: each
/// is tried until one opens. A ClickUp web link is tried first as a
/// `clickup://` deep link into the desktop app, then in the browser; any
/// other link goes to the browser; a missing or empty link opens nothing.
pub open spec fn open_targets(url: Option<Seq<char>>) -> Seq<Seq<char>> {
    match url {
        None => seq![],
        Some(u) => if u.len() == 0 {
            seq![]
        } else if clickup_web().is_prefix_of(u) {
            seq!["clickup://"@ + u.skip(clickup_web().len() as int), u]
        } else {
            seq![u]
        },
    }
}

/// The view of an optional text.
pub open spec fn opt_text(s: Option<&str>) -> Option<Seq<char>> {
    match s {
        Some(t) => Some(t@),
        None => None,
    }
}

/// The views of a list of strings.
pub open spec fn texts(v: Seq<String>) -> Seq<Seq<char>> {
    v.map_values(|s: String| s@)
}

/// Decides how to open an external link: the addresses to try, in order,
/// stopping at the first that opens.
pub fn link_targets(url: Option<&str>) -> (r: Vec<String>)
    ensures
        texts(r@) == open_targets(opt_text(url)),
{
    let mut out: Vec<String> = Vec::new();
    match url {
        None => {},
        Some(u) => {
            if u.unicode_len() == 0 {
            } else {
                match strip_prefix_text(u, "https://app.clickup.com/") {
                    Some(rest) => {
                        let mut deep = "clickup://".to_owned();
                        deep.append(rest);
                        out.push(deep);
                        out.push(u.to_owned());
                    },
                    None => {
                        out.push(u.to_owned());
                    },
                }
            }
        },
    }
    assert(texts(out@) =~= open_targets(opt_text(url)));
    out
}

} // verus!
