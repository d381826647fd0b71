//! What the text rules mean: the countdown reads back as the seconds it
//! shows, sound names keep exactly their ASCII letters and digits, and links
//! open as the ClickUp app or the browser.
use vstd::prelude::*;
use crate::shell::{countdown_secs, div_toward_zero, ShellView};
use crate::text::{alnum_only, decimal, digit_char, is_ascii_alnum, open_targets, tray_text, two_places};

verus! {

/// The number that a run of decimal digits stands for.
pub open spec fn digits_value(s: Seq<char>) -> int
    decreases s.len(),
{
    if s.len() == 0 {
        0
    } else {
        digits_value(s.drop_last()) * 10 + (s.last() as int - 48)
    }
}

/// Every character is a decimal digit.
pub open spec fn all_digits(s: Seq<char>) -> bool {
    forall|i: int| 0 <= i < s.len() ==> '0' <= #[trigger] s[i] && s[i] <= '9'
}

proof fn lemma_digit_code(d: nat)
    requires
        d < 10,
    ensures
        digit_char(d) as int == d + 48,
        '0' <= digit_char(d) <= '9',
{
}

/// A number's decimal notation is a non-empty run of digits, without a
/// leading zero unless the number is zero, that reads back as the number.
pub proof fn lemma_decimal_reads_back(n: nat)
    ensures
        decimal(n).len() >= 1,
        all_digits(decimal(n)),
        digits_value(decimal(n)) == n,
        n > 0 ==> decimal(n)[0] != '0',
    decreases n,
{
    if n < 10 {
        let d = decimal(n);
        assert(d.drop_last() =~= Seq::<char>::empty());
        lemma_digit_code(n);
        assert(digits_value(Seq::<char>::empty()) == 0);
        assert(d.last() == digit_char(n));
        assert(digits_value(d) == digits_value(d.drop_last()) * 10 + (d.last() as int - 48));
    } else {
        lemma_decimal_reads_back(n / 10);
        let p = decimal(n / 10);
        let d = decimal(n);
        let r = (n % 10) as nat;
        lemma_digit_code(r);
        assert(d.drop_last() =~= p);
        assert(d.last() == digit_char(r));
        assert(digits_value(d) == digits_value(d.drop_last()) * 10 + (d.last() as int - 48));
        assert(d[0] == p[0]);
    }
}

/// A clock field below one hundred is written with exactly two digits that
/// read back as the field.
pub proof fn lemma_two_places_reads_back(n: nat)
    requires
        n < 100,
    ensures
        two_places(n).len() == 2,
        all_digits(two_places(n)),
        digits_value(two_places(n)) == n,
{
    lemma_decimal_reads_back(n);
    let t = two_places(n);
    if n < 10 {
        lemma_digit_code(n);
        assert(t =~= seq!['0', digit_char(n)]);
        assert(t.drop_last() =~= seq!['0']);
        assert(seq!['0'].drop_last() =~= Seq::<char>::empty());
        assert(digits_value(Seq::<char>::empty()) == 0);
        assert(digits_value(seq!['0']) == 0);
        assert(digits_value(t) == digits_value(t.drop_last()) * 10 + (t.last() as int - 48));
    } else {
        let p = decimal(n / 10);
        lemma_decimal_reads_back(n / 10);
        assert(decimal(n).drop_last() =~= p);
        assert(p.len() == 1);
    }
}

/// The menu-bar countdown reads back as the seconds it shows (zero for a
/// negative count): below an hour it is minutes, a colon and two digits of
/// seconds; from an hour up, hours, a colon, two digits of minutes, a colon
/// and two digits of seconds, with minutes and seconds below sixty.
pub proof fn lemma_countdown_reads_back(sec: int)
    ensures
        ({
            let t = tray_text(sec);
            let v = if sec < 0 { 0 } else { sec };
            let k = t.len() as int;
            &&& k >= 4
            &&& t[k - 3] == ':'
            &&& all_digits(t.skip(k - 2))
            &&& digits_value(t.skip(k - 2)) < 60
            &&& v < 3600 ==> (all_digits(t.take(k - 3)) && digits_value(t.take(k - 3)) * 60
                + digits_value(t.skip(k - 2)) == v)
            &&& v >= 3600 ==> (k >= 7 && t[k - 6] == ':' && all_digits(t.take(k - 6)) && all_digits(
                t.subrange(k - 5, k - 3),
            ) && digits_value(t.subrange(k - 5, k - 3)) < 60 && digits_value(t.take(k - 6)) * 3600
                + digits_value(t.subrange(k - 5, k - 3)) * 60 + digits_value(t.skip(k - 2)) == v)
        }),
{
    let v: nat = if sec < 0 { 0 } else { sec as nat };
    let h = v / 3600;
    let m = (v % 3600) / 60;
    let x = v % 60;
    lemma_two_places_reads_back(m);
    lemma_two_places_reads_back(x);
    lemma_decimal_reads_back(h);
    lemma_decimal_reads_back(m);
    let t = tray_text(sec);
    let k = t.len() as int;
    if h > 0 {
        let a = decimal(h);
        assert(t =~= a + seq![':'] + two_places(m) + seq![':'] + two_places(x));
        assert(t.skip(k - 2) =~= two_places(x));
        assert(t.subrange(k - 5, k - 3) =~= two_places(m));
        assert(t.take(k - 6) =~= a);
        assert(h * 3600 + m * 60 + x == v);
    } else {
        let a = decimal(m);
        assert(t =~= a + seq![':'] + two_places(x));
        assert(t.skip(k - 2) =~= two_places(x));
        assert(t.take(k - 3) =~= a);
        assert(m * 60 + x == v);
    }
}

/// ASCII letters and digits, by their character codes.
pub proof fn lemma_alnum_codes(c: char)
    ensures
        is_ascii_alnum(c) <==> (48 <= c as u32 <= 57 || 65 <= c as u32 <= 90 || 97 <= c as u32 <= 122),
{
}

/// Cleaning a sound name keeps exactly its ASCII letters and digits: every
/// kept character is one, and a name made only of them stays as it is.
pub proof fn lemma_clean_name_exact(n: Seq<char>)
    ensures
        forall|i: int| 0 <= i < alnum_only(n).len() ==> is_ascii_alnum(#[trigger] alnum_only(n)[i]),
        (forall|i: int| 0 <= i < n.len() ==> is_ascii_alnum(#[trigger] n[i])) ==> alnum_only(n) == n,
        alnum_only(n).len() <= n.len(),
    decreases n.len(),
{
    let p = |c: char| is_ascii_alnum(c);
    assert forall|i: int| 0 <= i < alnum_only(n).len() implies is_ascii_alnum(#[trigger] alnum_only(n)[i]) by {
        n.lemma_filter_pred(p, i);
    }
    n.lemma_filter_len(p);
    if forall|i: int| 0 <= i < n.len() ==> is_ascii_alnum(#[trigger] n[i]) {
        reveal(Seq::filter);
        if n.len() > 0 {
            let m = n.drop_last();
            assert forall|i: int| 0 <= i < m.len() implies is_ascii_alnum(#[trigger] m[i]) by {
                assert(m[i] == n[i]);
            }
            lemma_clean_name_exact(m);
            assert(is_ascii_alnum(n[n.len() - 1]));
            assert(m.push(n.last()) =~= n);
        }
    }
}

/// A ClickUp web link opens first as the same path under `clickup://`, then
/// as itself; any other non-empty link opens as itself; an empty or missing
/// link opens nothing.
pub proof fn lemma_link_targets(u: Seq<char>)
    ensures
        "https://app.clickup.com/"@.is_prefix_of(u) ==> ({
            let t = open_targets(Some(u));
            &&& t.len() == 2
            &&& t[1] == u
            &&& t[0].take(10) == "clickup://"@
            &&& "https://app.clickup.com/"@ + t[0].skip(10) == u
        }),
        (u.len() > 0 && !"https://app.clickup.com/"@.is_prefix_of(u)) ==> open_targets(Some(u)) == seq![u],
        u.len() == 0 ==> open_targets(Some(u)).len() == 0,
        open_targets(None).len() == 0,
{
    reveal_strlit("clickup://");
    reveal_strlit("https://app.clickup.com/");
    if "https://app.clickup.com/"@.is_prefix_of(u) {
        let t = open_targets(Some(u));
        let rest = u.skip(24);
        assert(t[0] =~= "clickup://"@ + rest);
        assert(t[0].take(10) =~= "clickup://"@);
        assert(t[0].skip(10) =~= rest);
        assert("https://app.clickup.com/"@ + rest =~= u);
    }
}

/// The countdown of a running block is the seconds to its end, rounded
/// toward zero: never more than the time left, and less than a second
/// short of it.
pub proof fn lemma_countdown_rounding(s: ShellView, now_ms: i64)
    requires
        !s.tray_paused,
    ensures
        ({
            let left = s.tray_end_ms - now_ms;
            let c = countdown_secs(s, now_ms);
            &&& left >= 0 ==> (0 <= c * 1000 <= left && left < c * 1000 + 1000)
            &&& left < 0 ==> (left <= c * 1000 <= 0 && c * 1000 - 1000 < left)
        }),
{
    let left = s.tray_end_ms - now_ms;
    assert(div_toward_zero(left, 1000) == countdown_secs(s, now_ms));
}

} // verus!
