//! Shared helpers: the application name, human-readable byte sizes, the MD5
//! fingerprint of a URL and the `notify-send` command lines of notifications.
use vstd::prelude::*;
use crate::text::{decimal, digit_char, hex_lower, push_char, push_decimal, push_hex, push_str};
use vstd::utf8::encode_utf8;

verus! {

/// Name of the application, used for directories, sockets and log files.
pub const APP: &'static str = "tsp_ytdlp";

pub open spec fn pow2(k: nat) -> nat
    decreases k,
{
    if k == 0 {
        1
    } else {
        2 * pow2((k - 1) as nat)
    }
}

/// `a / b` rounded to the nearest integer, ties to the even neighbour.
pub open spec fn div_round_half_even(a: nat, b: nat) -> nat
    recommends
        b > 0,
{
    let q = a / b;
    let r = a % b;
    if 2 * r > b || (2 * r == b && q % 2 == 1) {
        q + 1
    } else {
        q
    }
}

/// How many low bits `n` loses when held in a 53-bit significand.
pub open spec fn f64_shift(n: nat) -> nat
    decreases n,
{
    if n < 0x20_0000_0000_0000 {
        0
    } else {
        1 + f64_shift(n / 2)
    }
}

/// The exact value of `n as f64`: `n` rounded to 53 significant bits,
/// ties to even.
pub open spec fn f64_value(n: nat) -> nat {
    div_round_half_even(n, pow2(f64_shift(n))) * pow2(f64_shift(n))
}

/// The value `n / unit`, computed in `f64`, in hundredths, rounded as
/// `{:.2}` rounds (to nearest, ties to even).
pub open spec fn hundredths(n: nat, unit: nat) -> nat {
    div_round_half_even(f64_value(n) * 100, unit)
}

/// `{:.2}` notation of a value given in hundredths.
pub open spec fn two_decimals(h: nat) -> Seq<char> {
    decimal(h / 100) + seq!['.', digit_char((h / 10) % 10), digit_char(h % 10)]
}

pub open spec fn KIB() -> nat { 1024 }
pub open spec fn MIB() -> nat { 1024 * 1024 }
pub open spec fn GIB() -> nat { 1024 * 1024 * 1024 }

/// Human-readable size: bytes below 1 KiB as an integer count, larger sizes
/// in the largest of KB, MB, GB (binary units) not above them, with two
/// decimals.
pub open spec fn format_bytes_text(bytes: nat) -> Seq<char> {
    if bytes >= GIB() {
        two_decimals(hundredths(bytes, GIB())) + " GB"@
    } else if bytes >= MIB() {
        two_decimals(hundredths(bytes, MIB())) + " MB"@
    } else if bytes >= KIB() {
        two_decimals(hundredths(bytes, KIB())) + " KB"@
    } else {
        decimal(bytes) + " bytes"@
    }
}

/// `n` as an `f64`, exactly, as an integer (at most 2^64).
fn f64_of(n: u64) -> (v: u128)
    ensures
        v == f64_value(n as nat),
        v <= 0x1_0000_0000_0000_0000,
{
    let mut m: u64 = n;
    let mut s: u64 = 0;
    let mut p: u64 = 1;
    while m >= 0x20_0000_0000_0000
        invariant
            f64_shift(n as nat) == s + f64_shift(m as nat),
            p == pow2(s as nat),
            m == n as nat / pow2(s as nat),
            s <= 11,
            0 < p <= 2048,
            m as nat * pow2(s as nat) <= n as nat,
        decreases m,
    {
        proof {
            lemma_pow2_pos(s as nat);
            vstd::arithmetic::div_mod::lemma_div_denominator(n as int, pow2(s as nat) as int, 2);
            assert(pow2((s + 1) as nat) == 2 * pow2(s as nat));
            assert((m as nat / 2) * 2 <= m) by (nonlinear_arith);
            assert((m as nat / 2) * pow2((s + 1) as nat) <= m as nat * pow2(s as nat)) by (nonlinear_arith)
                requires pow2((s + 1) as nat) == 2 * pow2(s as nat), (m as nat / 2) * 2 <= m;
            if s == 11 {
                // 2^53 * 2^11 > 2^64 > n: the loop cannot go this far
                assert(pow2(11) == 2048) by {
                    reveal_with_fuel(pow2, 12);
                }
                assert(m as nat * 2048 >= 0x20_0000_0000_0000 * 2048) by (nonlinear_arith)
                    requires m >= 0x20_0000_0000_0000;
                assert(false);
            }
            lemma_pow2_mono((s + 1) as nat, 11);
            assert(pow2(11) == 2048) by {
                reveal_with_fuel(pow2, 12);
            }
        }
        m = m / 2;
        s = s + 1;
        p = p * 2;
    }
    let ghost q = n as nat / pow2(s as nat);
    let ghost r = n as nat % pow2(s as nat);
    let qq: u64 = n / p;
    let rr: u64 = n % p;
    proof {
        assert(pow2(s as nat) > 0) by {
            lemma_pow2_pos(s as nat);
        }
    }
    let mut rounded: u128 = qq as u128;
    if 2 * (rr as u128) > (p as u128) || (2 * (rr as u128) == (p as u128) && qq % 2 == 1) {
        rounded = rounded + 1;
    }
    assert(rounded <= 0x20_0000_0000_0000);
    assert(p <= 2048) by {
        lemma_pow2_mono(s as nat, 11);
        assert(pow2(11) == 2048) by {
                    reveal_with_fuel(pow2, 12);
                }
    }
    assert(rounded * (p as u128) <= 0x20_0000_0000_0000 * 2048) by (nonlinear_arith)
        requires rounded <= 0x20_0000_0000_0000, p <= 2048;
    rounded * (p as u128)
}


/// `n / unit`, computed as `n as f64 / unit as f64`, in hundredths rounded
/// like `{:.2}`.
fn hundredths_of(n: u64, unit: u64) -> (h: u64)
    requires
        unit >= 1024,
    ensures
        h == hundredths(n as nat, unit as nat),
{
    let v = f64_of(n);
    let a: u128 = v * 100;
    let u: u128 = unit as u128;
    let q: u128 = a / u;
    let r: u128 = a % u;
    assert(q <= a / 1024) by {
        vstd::arithmetic::div_mod::lemma_div_is_ordered_by_denominator(a as int, 1024, u as int);
    }
    let mut h: u128 = q;
    if 2 * r > u || (2 * r == u && q % 2 == 1) {
        h = h + 1;
    }
    h as u64
}

/// Appends the `{:.2}` notation of a value given in hundredths.
fn push_two_decimals(out: &mut String, h: u64)
    ensures
        final(out)@ == old(out)@ + two_decimals(h as nat),
{
    push_decimal(out, h / 100);
    push_char(out, '.');
    push_char(out, digit_of((h / 10) % 10));
    push_char(out, digit_of(h % 10));
}

fn digit_of(d: u64) -> (c: char)
    requires
        d < 10,
    ensures
        c == digit_char(d as nat),
{
    let b: u8 = d as u8;
    (48u8 + b) as char
}

/// Formats a byte count for people: below 1 KiB as `"<n> bytes"`, otherwise
/// in the largest binary unit (KB, MB, GB) it reaches, with two decimals
/// rounded as `f64` formatting rounds.
pub fn format_bytes(bytes: u64) -> (s: String)
    ensures
        s@ == format_bytes_text(bytes as nat),
{
    let mut s = String::new();
    if bytes >= 1024 * 1024 * 1024 {
        push_two_decimals(&mut s, hundredths_of(bytes, 1024 * 1024 * 1024));
        push_str(&mut s, " GB");
    } else if bytes >= 1024 * 1024 {
        push_two_decimals(&mut s, hundredths_of(bytes, 1024 * 1024));
        push_str(&mut s, " MB");
    } else if bytes >= 1024 {
        push_two_decimals(&mut s, hundredths_of(bytes, 1024));
        push_str(&mut s, " KB");
    } else {
        push_decimal(&mut s, bytes);
        push_str(&mut s, " bytes");
    }
    s
}

// ---------------------------------------------------------------------------
// URL fingerprints
// ---------------------------------------------------------------------------

/// The MD5 digest of `data`, as the `md5` crate computes it.
pub uninterp spec fn md5_digest(data: Seq<u8>) -> Seq<u8>;

/// `md5::compute`: the 16 bytes of the MD5 digest of `data`.
#[verifier::external_body]
fn md5_compute(data: &[u8]) -> (d: [u8; 16])
    ensures
        d@ == md5_digest(data@),
{
    md5::compute(data).0
}

/// Lower-case hexadecimal MD5 of the UTF-8 bytes of `url`
/// (`format!("{:x}", md5::compute(url.as_bytes()))`).
pub open spec fn url_hash_text(url: Seq<char>) -> Seq<char> {
    hex_lower(md5_digest(encode_utf8(url)))
}

/// The fingerprint that names a URL's cache directory and notification.
pub fn url_hash(url: &str) -> (h: String)
    ensures
        h@ == url_hash_text(url@),
{
    let d = md5_compute(url.as_bytes());
    let mut h = String::new();
    push_hex(&mut h, d.as_slice());
    h
}

// ---------------------------------------------------------------------------
// Desktop notifications
// ---------------------------------------------------------------------------

/// A desktop notification about a URL.
#[derive(Clone, Debug)]
pub enum Notification {
    /// Replaces the URL's previous notification; shown for `timeout_ms`
    /// milliseconds (`None`: no timeout).
    Normal { url: String, message: String, timeout_ms: Option<u32> },
    /// Critical urgency, never times out.
    Critical { url: String, message: String },
}

/// The content of a notification.
pub enum NotificationView {
    Normal { url: Seq<char>, message: Seq<char>, timeout_ms: Option<u32> },
    Critical { url: Seq<char>, message: Seq<char> },
}

impl View for Notification {
    type V = NotificationView;

    open spec fn view(&self) -> NotificationView {
        match *self {
            Notification::Normal { url, message, timeout_ms } => NotificationView::Normal {
                url: url@,
                message: message@,
                timeout_ms,
            },
            Notification::Critical { url, message } => NotificationView::Critical {
                url: url@,
                message: message@,
            },
        }
    }
}

pub open spec fn opt_notification_view(n: Option<Notification>) -> Option<NotificationView> {
    match n {
        Some(n) => Some(n@),
        None => None,
    }
}

/// The hint that makes notifications about one URL replace each other.
pub open spec fn notification_hint(url: Seq<char>) -> Seq<char> {
    "string:x-canonical-private-synchronous:"@ + url_hash_text(url)
}

/// The arguments of the `notify-send` command for a notification.
pub open spec fn notify_send_args(n: Notification) -> Seq<Seq<char>> {
    match n {
        Notification::Normal { url, message, timeout_ms } => seq![
            "-h"@,
            notification_hint(url@),
            "-t"@,
            decimal(
                match timeout_ms {
                    Some(t) => t as nat,
                    None => 0,
                },
            ),
            message@,
        ],
        Notification::Critical { url, message } => seq![
            "-h"@,
            notification_hint(url@),
            "-u"@,
            "critical"@,
            "-t"@,
            "0"@,
            message@,
        ],
    }
}

impl Notification {
    /// The URL the notification is about.
    pub open spec fn url_view(&self) -> Seq<char> {
        match self {
            Notification::Normal { url, .. } => url@,
            Notification::Critical { url, .. } => url@,
        }
    }

    /// The text shown.
    pub open spec fn message_view(&self) -> Seq<char> {
        match self {
            Notification::Normal { message, .. } => message@,
            Notification::Critical { message, .. } => message@,
        }
    }

    /// The arguments to hand to `notify-send`.
    pub fn command_args(&self) -> (args: Vec<String>)
        ensures
            args.deep_view() == notify_send_args(*self),
    {
        let mut args: Vec<String> = Vec::new();
        match self {
            Notification::Normal { url, message, timeout_ms } => {
                args.push("-h".to_owned());
                args.push(hint_for(url.as_str()));
                args.push("-t".to_owned());
                let t: u64 = match timeout_ms {
                    Some(t) => *t as u64,
                    None => 0,
                };
                let mut ts = String::new();
                push_decimal(&mut ts, t);
                args.push(ts);
                args.push(message.clone());
            },
            Notification::Critical { url, message } => {
                args.push("-h".to_owned());
                args.push(hint_for(url.as_str()));
                args.push("-u".to_owned());
                args.push("critical".to_owned());
                args.push("-t".to_owned());
                args.push("0".to_owned());
                args.push(message.clone());
            },
        }
        assert(args.deep_view() =~= notify_send_args(*self));
        args
    }
}

fn hint_for(url: &str) -> (h: String)
    ensures
        h@ == notification_hint(url@),
{
    let mut h = "string:x-canonical-private-synchronous:".to_owned();
    let d = url_hash(url);
    push_str(&mut h, d.as_str());
    h
}

proof fn lemma_pow2_pos(k: nat)
    ensures
        pow2(k) > 0,
    decreases k,
{
    if k > 0 {
        lemma_pow2_pos((k - 1) as nat);
    }
}

proof fn lemma_pow2_mono(a: nat, b: nat)
    requires
        a <= b,
    ensures
        pow2(a) <= pow2(b),
    decreases b,
{
    if a < b {
        lemma_pow2_mono(a, (b - 1) as nat);
        lemma_pow2_pos((b - 1) as nat);
    }
}

} // verus!
