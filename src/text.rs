use vstd::prelude::*;

verus! {

/// The decimal digit character for `d` (`d < 10`).
pub open spec fn digit_char(d: int) -> char {
    if d == 0 {
        '0'
    } else if d == 1 {
        '1'
    } else if d == 2 {
        '2'
    } else if d == 3 {
        '3'
    } else if d == 4 {
        '4'
    } else if d == 5 {
        '5'
    } else if d == 6 {
        '6'
    } else if d == 7 {
        '7'
    } else if d == 8 {
        '8'
    } else {
        '9'
    }
}

/// Decimal notation of a natural number, without leading zeros.
pub open spec fn decimal(n: nat) -> Seq<char>
    decreases n,
{
    if n < 10 {
        seq![digit_char(n as int)]
    } else {
        decimal(n / 10) + seq![digit_char((n % 10) as int)]
    }
}

/// Relies on `u64`'s `Display` (through `ToString`): plain decimal digits.
#[verifier::external_body]
pub(crate) fn u64_text(n: u64) -> (r: String)
    ensures
        r@ == decimal(n as nat),
{
    n.to_string()
}

/// `x / d` rounded to the nearest integer, ties to the even neighbour.
pub open spec fn div_round_even(x: nat, d: nat) -> nat
    recommends
        d > 0,
{
    let q = x / d;
    let r = x % d;
    if 2 * r > d {
        q + 1
    } else if 2 * r < d {
        q
    } else if q % 2 == 0 {
        q
    } else {
        q + 1
    }
}

pub(crate) fn div_round_even_exec(x: u128, d: u128) -> (r: u128)
    requires
        0 < d < 0x1_0000_0000_0000_0000,
        x < 0x1_0000_0000_0000_0000_0000_0000,
    ensures
        r as nat == div_round_even(x as nat, d as nat),
{
    let q = x / d;
    let rem = x % d;
    assert(q <= x && rem < d) by (nonlinear_arith)
        requires
            q == x / d,
            rem == x % d,
            d > 0,
    ;
    if 2 * rem > d {
        q + 1
    } else if 2 * rem < d {
        q
    } else if q % 2 == 0 {
        q
    } else {
        q + 1
    }
}

/// `value / unit` with one decimal place, followed by a space and `suffix`.
pub open spec fn tenths_text(value: nat, unit: nat, suffix: Seq<char>) -> Seq<char> {
    let t = div_round_even(value * 10, unit);
    decimal(t / 10) + "."@ + decimal(t % 10) + " "@ + suffix
}

/// Bytes in a kibibyte.
pub const KIB: u64 = 1024;

/// Bytes in a mebibyte.
pub const MIB: u64 = 1048576;

/// Bytes in a gibibyte.
pub const GIB: u64 = 1073741824;

/// Human-readable byte count, as `format_bytes` writes it.
pub open spec fn bytes_text(bytes: nat) -> Seq<char> {
    if bytes >= GIB {
        tenths_text(bytes, GIB as nat, "GB"@)
    } else if bytes >= MIB {
        tenths_text(bytes, MIB as nat, "MB"@)
    } else if bytes >= KIB {
        tenths_text(bytes, KIB as nat, "KB"@)
    } else {
        decimal(bytes) + " B"@
    }
}

fn tenths(value: u64, unit: u64, suffix: &str) -> (r: String)
    requires
        unit > 0,
    ensures
        r@ == tenths_text(value as nat, unit as nat, suffix@),
{
    let t = div_round_even_exec(value as u128 * 10, unit as u128);
    assert(t <= value as u128 * 10) by (nonlinear_arith)
        requires
            t == div_round_even(value as nat * 10, unit as nat),
            unit > 0,
    ;
    let whole = u64_text((t / 10) as u64);
    let frac = u64_text((t % 10) as u64);
    whole.concat(".").concat(frac.as_str()).concat(" ").concat(suffix)
}

/// Formats a byte count with a binary unit (B, KB, MB, GB) and one decimal
/// place for the scaled units, e.g. `1536` as `"1.5 KB"`.
pub fn format_bytes(bytes: u64) -> (r: String)
    ensures
        r@ == bytes_text(bytes as nat),
{
    if bytes >= GIB {
        tenths(bytes, GIB, "GB")
    } else if bytes >= MIB {
        tenths(bytes, MIB, "MB")
    } else if bytes >= KIB {
        tenths(bytes, KIB, "KB")
    } else {
        u64_text(bytes).concat(" B")
    }
}


/// What `str::to_lowercase` makes of a character sequence.
pub uninterp spec fn lower_of(s: Seq<char>) -> Seq<char>;

/// Relies on `str::to_lowercase`: the result depends on the characters alone.
#[verifier::external_body]
pub(crate) fn lowercase(s: &str) -> (r: String)
    ensures
        r@ == lower_of(s@),
{
    s.to_lowercase()
}

/// Lexicographic comparison of character sequences by scalar value:
/// -1, 0 or 1 as `a` sorts before, equal to or after `b`.
pub open spec fn seq_cmp(a: Seq<char>, b: Seq<char>) -> int
    decreases a.len(),
{
    if a.len() == 0 && b.len() == 0 {
        0
    } else if a.len() == 0 {
        -1
    } else if b.len() == 0 {
        1
    } else if (a[0] as int)  < (b[0] as int)  {
        -1
    } else if (a[0] as int)  > (b[0] as int)  {
        1
    } else {
        seq_cmp(a.drop_first(), b.drop_first())
    }
}

/// Relies on `Ord for str`: byte-wise lexicographic order of UTF-8, which
/// orders strings as their character sequences by scalar value.
#[verifier::external_body]
pub(crate) fn compare_str(a: &str, b: &str) -> (r: i8)
    ensures
        r as int == seq_cmp(a@, b@),
{
    match a.cmp(b) {
        std::cmp::Ordering::Less => -1,
        std::cmp::Ordering::Equal => 0,
        std::cmp::Ordering::Greater => 1,
    }
}

/// Lexicographic comparison is antisymmetric and ties only on equal sequences.
pub proof fn lemma_seq_cmp_antisym(a: Seq<char>, b: Seq<char>)
    ensures
        seq_cmp(a, b) == -seq_cmp(b, a),
        -1 <= seq_cmp(a, b) <= 1,
        seq_cmp(a, b) == 0 <==> a == b,
    decreases a.len(),
{
    if a.len() > 0 && b.len() > 0 && (a[0] as int) == (b[0] as int) {
        lemma_seq_cmp_antisym(a.drop_first(), b.drop_first());
        if a.drop_first() == b.drop_first() {
            assert(a[0] == b[0]);
            assert forall|i: int| 0 <= i < a.len() implies a[i] == b[i] by {
                if i > 0 {
                    assert(a[i] == a.drop_first()[i - 1]);
                    assert(b[i] == b.drop_first()[i - 1]);
                }
            }
            assert(a =~= b);
        }
    }
    if a.len() == 0 && b.len() == 0 {
        assert(a =~= b);
    }
}

/// Lexicographic comparison is transitive.
pub proof fn lemma_seq_cmp_trans(a: Seq<char>, b: Seq<char>, c: Seq<char>)
    requires
        seq_cmp(a, b) <= 0,
        seq_cmp(b, c) <= 0,
    ensures
        seq_cmp(a, c) <= 0,
    decreases a.len(),
{
    if a.len() > 0 && b.len() > 0 && c.len() > 0 && (a[0] as int)  == (b[0] as int)  && (b[0] as int)
        == (c[0] as int)  {
        lemma_seq_cmp_trans(a.drop_first(), b.drop_first(), c.drop_first());
    }
}


/// `needle` occurs in `hay` as a contiguous run.
pub open spec fn has_infix(hay: Seq<char>, needle: Seq<char>) -> bool {
    exists|i: int|
        0 <= i && i + needle.len() <= hay.len() && #[trigger] hay.subrange(i, i + needle.len())
            == needle
}

/// Relies on `str::contains` with a `&str` pattern: true exactly when the
/// pattern occurs in the string as a contiguous run of characters.
#[verifier::external_body]
pub(crate) fn str_contains(hay: &str, needle: &str) -> (r: bool)
    ensures
        r == has_infix(hay@, needle@),
{
    hay.contains(needle)
}


/// Whether two character sequences are equal, through `compare_str`.
pub fn str_eq(a: &str, b: &str) -> (r: bool)
    ensures
        r == (a@ == b@),
{
    proof {
        lemma_seq_cmp_antisym(a@, b@);
    }
    compare_str(a, b) == 0
}

/// Every character is an ASCII decimal digit.
pub open spec fn all_digits(s: Seq<char>) -> bool {
    forall|i: int| 0 <= i < s.len() ==> '0' <= #[trigger] s[i] && s[i] <= '9'
}

/// The number that a run of decimal digits stands for.
pub open spec fn digits_value(s: Seq<char>) -> int
    decreases s.len(),
{
    if s.len() == 0 {
        0
    } else {
        digits_value(s.drop_last()) * 10 + (s.last() as int - '0' as int)
    }
}

/// What `u64::from_str` accepts: an optional `+` and at least one decimal
/// digit, whose value fits in 64 bits.
pub open spec fn spec_parse_u64(s: Seq<char>) -> Option<u64> {
    let body = if s.len() > 0 && s[0] == '+' {
        s.drop_first()
    } else {
        s
    };
    if body.len() > 0 && all_digits(body) && digits_value(body) <= u64::MAX {
        Some(digits_value(body) as u64)
    } else {
        None
    }
}

/// Relies on `u64::from_str`: decimal digits after an optional `+`, the value
/// within range; anything else is an error.
#[verifier::external_body]
pub(crate) fn parse_u64(s: &str) -> (r: Option<u64>)
    ensures
        r == spec_parse_u64(s@),
{
    s.parse::<u64>().ok()
}


/// Relies on `String::push`: appends one character.
#[verifier::external_body]
pub(crate) fn push_char(s: &mut String, c: char)
    ensures
        final(s)@ == old(s)@.push(c),
{
    s.push(c)
}

/// Relies on `String::pop`: removes and returns the last character, if any.
#[verifier::external_body]
pub(crate) fn pop_char(s: &mut String) -> (r: Option<char>)
    ensures
        old(s)@.len() == 0 ==> r is None && final(s)@ == old(s)@,
        old(s)@.len() > 0 ==> r == Some(old(s)@.last()) && final(s)@ == old(s)@.drop_last(),
{
    s.pop()
}


/// How `format_uptime` shows a number of seconds.
pub open spec fn uptime_text(seconds: nat) -> Seq<char> {
    if seconds < 60 {
        decimal(seconds) + "s"@
    } else if seconds < 3600 {
        if seconds % 60 > 0 {
            decimal(seconds / 60) + "m "@ + decimal(seconds % 60) + "s"@
        } else {
            decimal(seconds / 60) + "m"@
        }
    } else if seconds < 86400 {
        if (seconds % 3600) / 60 > 0 {
            decimal(seconds / 3600) + "h "@ + decimal((seconds % 3600) / 60) + "m"@
        } else {
            decimal(seconds / 3600) + "h"@
        }
    } else {
        if (seconds % 86400) / 3600 > 0 {
            decimal(seconds / 86400) + "d "@ + decimal((seconds % 86400) / 3600) + "h"@
        } else {
            decimal(seconds / 86400) + "d"@
        }
    }
}

/// An uptime in its two largest units, e.g. `"1h 1m"`, `"2d"`, `"30s"`.
pub fn format_uptime(seconds: u64) -> (r: String)
    ensures
        r@ == uptime_text(seconds as nat),
{
    if seconds < 60 {
        u64_text(seconds).concat("s")
    } else if seconds < 3600 {
        let mins = seconds / 60;
        let secs = seconds % 60;
        if secs > 0 {
            u64_text(mins).concat("m ").concat(u64_text(secs).as_str()).concat("s")
        } else {
            u64_text(mins).concat("m")
        }
    } else if seconds < 86400 {
        let hours = seconds / 3600;
        let mins = (seconds % 3600) / 60;
        if mins > 0 {
            u64_text(hours).concat("h ").concat(u64_text(mins).as_str()).concat("m")
        } else {
            u64_text(hours).concat("h")
        }
    } else {
        let days = seconds / 86400;
        let hours = (seconds % 86400) / 3600;
        if hours > 0 {
            u64_text(days).concat("d ").concat(u64_text(hours).as_str()).concat("h")
        } else {
            u64_text(days).concat("d")
        }
    }
}

/// Dotted-quad text of an IPv4 address stored with its first octet in the
/// lowest byte.
pub open spec fn ipv4_text(addr: u32) -> Seq<char> {
    decimal((addr % 256) as nat) + "."@ + decimal(((addr / 256) % 256) as nat) + "."@ + decimal(
        ((addr / 65536) % 256) as nat,
    ) + "."@ + decimal((addr / 16777216) as nat)
}

/// Formats an address in network byte order read as a little-endian
/// integer, e.g. `0x0100007F` as `"127.0.0.1"`.
pub fn format_ipv4(addr: u32) -> (r: String)
    ensures
        r@ == ipv4_text(addr),
{
    let a = (addr % 256) as u64;
    let b = ((addr / 256) % 256) as u64;
    let c = ((addr / 65536) % 256) as u64;
    let d = (addr / 16777216) as u64;
    u64_text(a).concat(".").concat(u64_text(b).as_str()).concat(".").concat(
        u64_text(c).as_str(),
    ).concat(".").concat(u64_text(d).as_str())
}

/// How `format_rate` shows a transfer rate in bytes per second.
pub open spec fn rate_text(bytes_per_sec: nat) -> Seq<char> {
    if bytes_per_sec < 1 {
        "0 B/s"@
    } else if bytes_per_sec < KIB {
        decimal(bytes_per_sec) + " B/s"@
    } else if bytes_per_sec < MIB {
        tenths_text(bytes_per_sec, KIB as nat, "KB/s"@)
    } else if bytes_per_sec < GIB {
        tenths_text(bytes_per_sec, MIB as nat, "MB/s"@)
    } else {
        tenths_text(bytes_per_sec, GIB as nat, "GB/s"@)
    }
}

/// A transfer rate with a binary unit, e.g. `1536` as `"1.5 KB/s"`.
pub fn format_rate(bytes_per_sec: u64) -> (r: String)
    ensures
        r@ == rate_text(bytes_per_sec as nat),
{
    if bytes_per_sec < 1 {
        "0 B/s".to_string()
    } else if bytes_per_sec < KIB {
        u64_text(bytes_per_sec).concat(" B/s")
    } else if bytes_per_sec < MIB {
        tenths(bytes_per_sec, KIB, "KB/s")
    } else if bytes_per_sec < GIB {
        tenths(bytes_per_sec, MIB, "MB/s")
    } else {
        tenths(bytes_per_sec, GIB, "GB/s")
    }
}

/// The status text for elevated or standard privileges.
pub fn elevation_status_string(elevated: bool) -> (r: &'static str)
    ensures
        elevated ==> r@ == "Administrator"@,
        !elevated ==> r@ == "Standard User"@,
{
    if elevated {
        "Administrator"
    } else {
        "Standard User"
    }
}

/// The short header tag for elevated or standard privileges.
pub fn elevation_indicator(elevated: bool) -> (r: &'static str)
    ensures
        elevated ==> r@ == "[Admin]"@,
        !elevated ==> r@ == "[User]"@,
{
    if elevated {
        "[Admin]"
    } else {
        "[User]"
    }
}

/// How `truncate_string` shortens text to `max_len` characters.
pub open spec fn truncated(s: Seq<char>, max_len: nat) -> Seq<char> {
    if s.len() <= max_len {
        s
    } else if max_len > 3 {
        s.subrange(0, max_len - 3) + "..."@
    } else {
        s.subrange(0, max_len as int)
    }
}

/// Fits text into `max_len` characters, marking a cut with `"..."` where
/// there is room for it.
pub fn truncate_string(s: &str, max_len: usize) -> (r: String)
    ensures
        r@ == truncated(s@, max_len as nat),
{
    let n = s.unicode_len();
    if n <= max_len {
        s.to_string()
    } else if max_len > 3 {
        s.substring_char(0, max_len - 3).to_string().concat("...")
    } else {
        s.substring_char(0, max_len).to_string()
    }
}

/// The last `\`-separated component of a path.
pub open spec fn file_name_of(path: Seq<char>) -> Seq<char>
    decreases path.len(),
{
    if path.len() == 0 {
        path
    } else if path.last() == '\\' {
        Seq::empty()
    } else {
        file_name_of(path.drop_last()).push(path.last())
    }
}

/// The file name of a Windows path: everything after the last backslash.
pub fn path_to_filename(path: &str) -> (r: String)
    ensures
        r@ == file_name_of(path@),
{
    let n = path.unicode_len();
    let mut start: usize = n;
    proof {
        assert(path@.subrange(0, n as int) =~= path@);
        assert(path@.subrange(n as int, n as int) =~= Seq::<char>::empty());
        assert(file_name_of(path@) + Seq::<char>::empty() =~= file_name_of(path@));
    }
    while start > 0 && path.get_char(start - 1) != '\\'
        invariant
            start <= n,
            n == path@.len(),
            file_name_of(path@) == file_name_of(path@.subrange(0, start as int)) + path@.subrange(
                start as int,
                n as int,
            ),
        decreases start,
    {
        proof {
            let p = path@.subrange(0, start as int);
            assert(p.drop_last() =~= path@.subrange(0, start - 1));
            assert(path@.subrange(start - 1, n as int) =~= seq![p.last()] + path@.subrange(
                start as int,
                n as int,
            ));
            assert(file_name_of(path@.subrange(0, start - 1)).push(p.last()) + path@.subrange(
                start as int,
                n as int,
            ) =~= file_name_of(path@.subrange(0, start - 1)) + path@.subrange(start - 1, n as int));
        }
        start -= 1;
    }
    proof {
        if start > 0 {
            assert(path@.subrange(0, start as int).last() == '\\');
        }
        assert(file_name_of(path@.subrange(0, start as int)) =~= Seq::<char>::empty());
    }
    path.substring_char(start, n).to_string()
}


/// A character that forces a CSV field into quotes.
pub open spec fn csv_special(c: char) -> bool {
    c == ',' || c == '"' || c == '\n' || c == '\r'
}

/// The text with every double quote doubled.
pub open spec fn doubled_quotes(s: Seq<char>) -> Seq<char>
    decreases s.len(),
{
    if s.len() == 0 {
        s
    } else if s.last() == '"' {
        doubled_quotes(s.drop_last()) + seq!['"', '"']
    } else {
        doubled_quotes(s.drop_last()).push(s.last())
    }
}

/// A CSV field: quoted, with quotes doubled, where it holds a comma, a
/// quote or a line break; unchanged otherwise.
pub open spec fn csv_field(s: Seq<char>) -> Seq<char> {
    if exists|i: int| 0 <= i < s.len() && csv_special(#[trigger] s[i]) {
        seq!['"'] + doubled_quotes(s) + seq!['"']
    } else {
        s
    }
}

/// Escapes text for one CSV field.
pub fn escape_csv(s: &str) -> (r: String)
    ensures
        r@ == csv_field(s@),
{
    let n = s.unicode_len();
    let mut body = String::new();
    let mut special = false;
    let mut i: usize = 0;
    while i < n
        invariant
            i <= n,
            n == s@.len(),
            body@ == doubled_quotes(s@.subrange(0, i as int)),
            special == exists|j: int| 0 <= j < i && csv_special(#[trigger] s@[j]),
        decreases n - i,
    {
        let c = s.get_char(i);
        proof {
            let next = s@.subrange(0, i + 1);
            assert(next.drop_last() =~= s@.subrange(0, i as int));
            assert(next.last() == c);
        }
        if c == '"' {
            push_char(&mut body, '"');
            push_char(&mut body, '"');
            proof {
                assert(body@ =~= doubled_quotes(s@.subrange(0, i + 1)));
            }
        } else {
            push_char(&mut body, c);
        }
        if c == ',' || c == '"' || c == '\n' || c == '\r' {
            special = true;
        }
        i += 1;
    }
    assert(s@.subrange(0, n as int) =~= s@);
    if special {
        let mut r = String::new();
        push_char(&mut r, '"');
        let mut r = r.concat(body.as_str());
        push_char(&mut r, '"');
        proof {
            assert(r@ =~= seq!['"'] + doubled_quotes(s@) + seq!['"']);
        }
        r
    } else {
        proof {
            assert forall|k: int| 0 <= k <= s@.len() && !(exists|j: int| 0 <= j < k && csv_special(
                #[trigger] s@[j],
            )) implies doubled_quotes(s@.subrange(0, k)) == s@.subrange(0, k) by {
                lemma_no_quotes_unchanged(s@, k);
            }
        }
        body
    }
}

proof fn lemma_no_quotes_unchanged(s: Seq<char>, k: int)
    requires
        0 <= k <= s.len(),
        !(exists|j: int| 0 <= j < k && csv_special(#[trigger] s[j])),
    ensures
        doubled_quotes(s.subrange(0, k)) == s.subrange(0, k),
    decreases k,
{
    if k > 0 {
        lemma_no_quotes_unchanged(s, k - 1);
        let p = s.subrange(0, k);
        assert(p.drop_last() =~= s.subrange(0, k - 1));
        assert(p.last() == s[k - 1]);
        assert(!csv_special(s[k - 1]));
        assert(p =~= s.subrange(0, k - 1).push(s[k - 1]));
    } else {
        assert(s.subrange(0, 0) =~= Seq::<char>::empty());
    }
}


/// What `String::from_utf16_lossy` makes of a sequence of UTF-16 units.
pub uninterp spec fn utf16_lossy(units: Seq<u16>) -> Seq<char>;

/// Relies on `String::from_utf16_lossy`: the result depends on the units alone.
#[verifier::external_body]
fn decode_utf16_lossy(units: &[u16]) -> (r: String)
    ensures
        r@ == utf16_lossy(units@),
{
    String::from_utf16_lossy(units)
}

/// Decodes a zero-terminated UTF-16 buffer (up to its first zero unit, or
/// whole where it has none), replacing invalid units.
pub fn wide_to_string(wide: &[u16]) -> (r: String)
    ensures
        exists|len: int|
            0 <= len <= wide@.len() && (forall|j: int| 0 <= j < len ==> wide@[j] != 0) && (len
                == wide@.len() || wide@[len] == 0) && r@ == utf16_lossy(#[trigger] wide@.subrange(0, len)),
{
    let mut len: usize = 0;
    while len < wide.len() && wide[len] != 0
        invariant
            len <= wide@.len(),
            forall|j: int| 0 <= j < len ==> wide@[j] != 0,
        decreases wide@.len() - len,
    {
        len += 1;
    }
    let mut units: Vec<u16> = Vec::new();
    let mut i: usize = 0;
    while i < len
        invariant
            i <= len <= wide@.len(),
            units@ == wide@.subrange(0, i as int),
        decreases len - i,
    {
        units.push(wide[i]);
        i += 1;
    }
    let r = decode_utf16_lossy(units.as_slice());
    proof {
        let l = len as int;
        assert(units@ == wide@.subrange(0, l));
        assert(l == wide@.len() || wide@[l] == 0);
        assert(0 <= l <= wide@.len() && (forall|j: int| 0 <= j < l ==> wide@[j] != 0) && (l
            == wide@.len() || wide@[l] == 0) && r@ == utf16_lossy(wide@.subrange(0, l)));
    }
    r
}

} // verus!
