use vstd::prelude::*;
use vstd::view::View as _;
use vstd::utf8::{decode_utf8, encode_utf8, is_char_boundary};

verus! {

/// The character of a decimal digit.
pub open spec fn digit_char(d: nat) -> char {
    if d == 0 {
        '0'
    } else if d == 1 {
        '1'
    } else if d == 2 {
        '2'
    } else if d == 3 {
        '3'
    } else if d == 4 {
        '4'
    } else if d == 5 {
        '5'
    } else if d == 6 {
        '6'
    } else if d == 7 {
        '7'
    } else if d == 8 {
        '8'
    } else {
        '9'
    }
}

/// The decimal representation of `n`, without leading zeros.
pub open spec fn decimal(n: nat) -> Seq<char>
    decreases n,
{
    if n < 10 {
        seq![digit_char(n)]
    } else {
        decimal(n / 10) + seq![digit_char(n % 10)]
    }
}

/// `piece` written `n` times.
pub open spec fn repeat(piece: Seq<char>, n: nat) -> Seq<char>
    decreases n,
{
    if n == 0 {
        Seq::empty()
    } else {
        repeat(piece, (n - 1) as nat) + piece
    }
}

fn digit_str(d: u64) -> (r: &'static str)
    requires
        d < 10,
    ensures
        r@ == seq![digit_char(d as nat)],
{
    proof {
        reveal_strlit("0");
        reveal_strlit("1");
        reveal_strlit("2");
        reveal_strlit("3");
        reveal_strlit("4");
        reveal_strlit("5");
        reveal_strlit("6");
        reveal_strlit("7");
        reveal_strlit("8");
        reveal_strlit("9");
    }
    match d {
        0 => "0",
        1 => "1",
        2 => "2",
        3 => "3",
        4 => "4",
        5 => "5",
        6 => "6",
        7 => "7",
        8 => "8",
        _ => "9",
    }
}

/// Appends the decimal representation of `n`.
pub fn push_decimal(s: &mut String, n: u128)
    ensures
        final(s)@ == old(s)@ + decimal(n as nat),
    decreases n,
{
    if n >= 10 {
        push_decimal(s, n / 10);
    }
    s.append(digit_str((n % 10) as u64));
    proof {
        assert(old(s)@ + decimal(n as nat) =~= s@);
    }
}

/// Appends `piece` `n` times.
pub fn push_repeat(s: &mut String, piece: &str, n: usize)
    ensures
        final(s)@ == old(s)@ + repeat(piece@, n as nat),
{
    let mut i: usize = 0;
    while i < n
        invariant
            i <= n,
            s@ == old(s)@ + repeat(piece@, i as nat),
        decreases n - i,
    {
        s.append(piece);
        i = i + 1;
        assert(s@ =~= old(s)@ + repeat(piece@, i as nat));
    }
}

/// Cells of a bar of `width` cells that `percentage` fills: the share
/// rounded to the nearest cell, halves upwards.
pub open spec fn filled_cells(percentage: int, width: int) -> int {
    (2 * (percentage * width) + 100) / 200
}

/// The progress bar of a percentage: `[`, the filled cells as `█`, the
/// remaining cells as `░`, `]`.
pub open spec fn progress_bar(percentage: int, width: int) -> Seq<char> {
    let filled = filled_cells(percentage, width);
    let empty = if filled < width {
        width - filled
    } else {
        0
    };
    seq!['['] + repeat(seq!['█'], filled as nat) + repeat(seq!['░'], empty as nat) + seq![']']
}

/// Draws a bar of `width` cells filled to `percentage`; a percentage over
/// 100 fills more cells than the width.
pub fn create_progress_bar(percentage: u64, width: usize) -> (r: String)
    requires
        percentage * width <= usize::MAX,
    ensures
        r@ == progress_bar(percentage as int, width as int),
{
    proof {
        reveal_strlit("[");
        reveal_strlit("]");
        reveal_strlit("█");
        reveal_strlit("░");
        assert("[".view() =~= seq!['[']);
        assert("]".view() =~= seq![']']);
        assert("█".view() =~= seq!['█']);
        assert("░".view() =~= seq!['░']);
    }
    let product: u128 = percentage as u128 * width as u128;
    let q: u128 = (2 * product + 100) / 200;
    assert(q <= product) by (nonlinear_arith)
        requires
            q == (2 * product + 100) / 200,
            product >= 0,
    {
        if product == 0 {
            assert(q == 0);
        } else {
            assert(2 * product + 100 <= 200 * product);
        }
    }
    let filled: usize = if q > usize::MAX as u128 {
        usize::MAX
    } else {
        q as usize
    };
    let empty: usize = if filled < width {
        width - filled
    } else {
        0
    };
    let mut r = String::from_str("[");
    push_repeat(&mut r, "█", filled);
    push_repeat(&mut r, "░", empty);
    r.append("]");
    assert(r@ =~= progress_bar(percentage as int, width as int));
    r
}

/// `text` cut to at most `max_len` bytes of UTF-8: unchanged if it fits;
/// else as many dots as `max_len` if that is at most 3; else its first
/// `max_len - 3` bytes followed by `...`.
pub open spec fn truncated(text: Seq<char>, max_len: int) -> Seq<char> {
    let bytes = encode_utf8(text);
    if bytes.len() <= max_len {
        text
    } else if max_len <= 3 {
        repeat(seq!['.'], max_len as nat)
    } else {
        decode_utf8(bytes.subrange(0, max_len - 3)) + seq!['.', '.', '.']
    }
}

/// Cuts `s` to at most `max_len` bytes, marking the cut with an ellipsis.
/// The cut must fall between two characters.
pub fn truncate_with_ellipsis(s: &str, max_len: usize) -> (r: String)
    requires
        encode_utf8(s@).len() > max_len > 3 ==> is_char_boundary(encode_utf8(s@), max_len - 3),
    ensures
        r@ == truncated(s@, max_len as int),
{
    proof {
        reveal_strlit(".");
        reveal_strlit("...");
        assert(".".view() =~= seq!['.']);
        assert("...".view() =~= seq!['.', '.', '.']);
    }
    if s.as_bytes().len() <= max_len {
        String::from_str(s)
    } else if max_len <= 3 {
        let mut r = String::new();
        push_repeat(&mut r, ".", max_len);
        assert(r@ =~= truncated(s@, max_len as int));
        r
    } else {
        let (head, _) = s.split_at(max_len - 3);
        proof {
            vstd::utf8::encode_utf8_decode_utf8(head@);
        }
        let mut r = String::from_str(head);
        r.append("...");
        assert(r@ =~= truncated(s@, max_len as int));
        r
    }
}

/// How `align_text` places text in its field.
#[derive(Debug, Clone, Copy, PartialEq, Eq, Structural)]
pub enum Alignment {
    Left,
    Right,
    Center,
}

/// `text` placed in a field of `width` characters: cut as `truncated` does
/// when it has at least `width` characters, else padded with spaces on the
/// right, on the left, or on both sides with the extra space on the right.
pub open spec fn aligned(text: Seq<char>, width: int, alignment: Alignment) -> Seq<char> {
    if text.len() >= width {
        truncated(text, width)
    } else {
        let pad = width - text.len();
        match alignment {
            Alignment::Left => text + repeat(seq![' '], pad as nat),
            Alignment::Right => repeat(seq![' '], pad as nat) + text,
            Alignment::Center => repeat(seq![' '], (pad / 2) as nat) + text + repeat(
                seq![' '],
                (pad - pad / 2) as nat,
            ),
        }
    }
}

/// Places `text` in a field of `width` characters.
pub fn align_text(text: &str, width: usize, alignment: Alignment) -> (r: String)
    requires
        text@.len() >= width && encode_utf8(text@).len() > width > 3 ==> is_char_boundary(
            encode_utf8(text@),
            width - 3,
        ),
    ensures
        r@ == aligned(text@, width as int, alignment),
{
    proof {
        reveal_strlit(" ");
        assert(" ".view() =~= seq![' ']);
    }
    let text_len = text.unicode_len();
    if text_len >= width {
        return truncate_with_ellipsis(text, width);
    }
    let padding = width - text_len;
    match alignment {
        Alignment::Left => {
            let mut r = String::from_str(text);
            push_repeat(&mut r, " ", padding);
            assert(r@ =~= aligned(text@, width as int, alignment));
            r
        },
        Alignment::Right => {
            let mut r = String::new();
            push_repeat(&mut r, " ", padding);
            r.append(text);
            assert(r@ =~= aligned(text@, width as int, alignment));
            r
        },
        Alignment::Center => {
            let left = padding / 2;
            let right = padding - left;
            let mut r = String::new();
            push_repeat(&mut r, " ", left);
            r.append(text);
            push_repeat(&mut r, " ", right);
            assert(r@ =~= aligned(text@, width as int, alignment));
            r
        },
    }
}

/// `1024` to the power `k`.
pub open spec fn pow1024(k: nat) -> nat
    decreases k,
{
    if k == 0 {
        1
    } else {
        1024 * pow1024((k - 1) as nat)
    }
}

/// The unit a byte count is shown in: the largest of B, KB, MB, GB, TB and
/// PB that the count reaches.
pub open spec fn byte_unit(bytes: nat) -> nat {
    if bytes >= pow1024(5) {
        5
    } else if bytes >= pow1024(4) {
        4
    } else if bytes >= pow1024(3) {
        3
    } else if bytes >= pow1024(2) {
        2
    } else if bytes >= pow1024(1) {
        1
    } else {
        0
    }
}

/// The name of a unit.
pub open spec fn unit_name(k: nat) -> Seq<char> {
    if k == 0 {
        seq!['B']
    } else if k == 1 {
        seq!['K', 'B']
    } else if k == 2 {
        seq!['M', 'B']
    } else if k == 3 {
        seq!['G', 'B']
    } else if k == 4 {
        seq!['T', 'B']
    } else {
        seq!['P', 'B']
    }
}

/// Decimal places shown for a count in unit `k`: two below 10 units, one
/// below 100, none from there on.
pub open spec fn byte_decimals(bytes: nat, k: nat) -> nat {
    if bytes < 10 * pow1024(k) {
        2
    } else if bytes < 100 * pow1024(k) {
        1
    } else {
        0
    }
}

/// `10` to the power `p`.
pub open spec fn pow10(p: nat) -> nat
    decreases p,
{
    if p == 0 {
        1
    } else {
        10 * pow10((p - 1) as nat)
    }
}

/// `num / den` rounded to the nearest integer, ties to the even one.
pub open spec fn round_half_even(num: nat, den: nat) -> nat {
    let q = num / den;
    let r = num % den;
    if 2 * r > den || (2 * r == den && q % 2 == 1) {
        q + 1
    } else {
        q
    }
}

/// `scaled / 10^p` written with exactly `p` decimal places (`p` at most 2).
pub open spec fn fixed_point(scaled: nat, p: nat) -> Seq<char> {
    if p == 0 {
        decimal(scaled)
    } else {
        decimal(scaled / pow10(p)) + seq!['.'] + (if p == 2 && scaled % 100 < 10 {
            seq!['0']
        } else {
            Seq::empty()
        }) + decimal(scaled % pow10(p))
    }
}

/// A byte count in its unit, with two, one or no decimals, then a space
/// and the unit's name.
pub open spec fn bytes_text(bytes: nat) -> Seq<char> {
    let k = byte_unit(bytes);
    let p = byte_decimals(bytes, k);
    fixed_point(round_half_even(bytes * pow10(p), pow1024(k)), p) + seq![' '] + unit_name(k)
}

fn unit_str(k: u64) -> (r: &'static str)
    requires
        k <= 5,
    ensures
        r@ == unit_name(k as nat),
{
    proof {
        reveal_strlit("B");
        reveal_strlit("KB");
        reveal_strlit("MB");
        reveal_strlit("GB");
        reveal_strlit("TB");
        reveal_strlit("PB");
        assert("B".view() =~= seq!['B']);
        assert("KB".view() =~= seq!['K', 'B']);
        assert("MB".view() =~= seq!['M', 'B']);
        assert("GB".view() =~= seq!['G', 'B']);
        assert("TB".view() =~= seq!['T', 'B']);
        assert("PB".view() =~= seq!['P', 'B']);
    }
    match k {
        0 => "B",
        1 => "KB",
        2 => "MB",
        3 => "GB",
        4 => "TB",
        _ => "PB",
    }
}

/// Formats a byte count in the largest unit it reaches, rounded to two
/// decimals below 10 units, one below 100 and none above.
pub fn format_bytes(bytes: u64) -> (r: String)
    ensures
        r@ == bytes_text(bytes as nat),
{
    proof {
        reveal_with_fuel(pow1024, 6);
        reveal_with_fuel(pow10, 3);
        reveal_strlit(".");
        reveal_strlit("0");
        reveal_strlit(" ");
        assert(".".view() =~= seq!['.']);
        assert("0".view() =~= seq!['0']);
        assert(" ".view() =~= seq![' ']);
    }
    let k: u64 = if bytes >= 1125899906842624 {
        5
    } else if bytes >= 1099511627776 {
        4
    } else if bytes >= 1073741824 {
        3
    } else if bytes >= 1048576 {
        2
    } else if bytes >= 1024 {
        1
    } else {
        0
    };
    let unit: u128 = match k {
        0 => 1,
        1 => 1024,
        2 => 1048576,
        3 => 1073741824,
        4 => 1099511627776,
        _ => 1125899906842624,
    };
    assert(k as nat == byte_unit(bytes as nat));
    assert(unit as nat == pow1024(k as nat));
    let b = bytes as u128;
    let p: u64 = if b < 10 * unit {
        2
    } else if b < 100 * unit {
        1
    } else {
        0
    };
    let scale: u128 = if p == 2 {
        100
    } else if p == 1 {
        10
    } else {
        1
    };
    let num: u128 = b * scale;
    let q = num / unit;
    let rem = num % unit;
    let scaled: u128 = if 2 * rem > unit || (2 * rem == unit && q % 2 == 1) {
        q + 1
    } else {
        q
    };
    assert(scaled as nat == round_half_even((bytes as nat) * pow10(p as nat), pow1024(k as nat)));
    let mut r = String::new();
    if p == 0 {
        push_decimal(&mut r, scaled);
    } else {
        push_decimal(&mut r, scaled / scale);
        r.append(".");
        if p == 2 && scaled % 100 < 10 {
            r.append("0");
        }
        push_decimal(&mut r, scaled % scale);
    }
    r.append(" ");
    r.append(unit_str(k));
    assert(r@ =~= bytes_text(bytes as nat));
    r
}

/// `n` followed by a unit letter.
pub open spec fn amount(n: nat, unit: char) -> Seq<char> {
    decimal(n) + seq![unit]
}

/// The parts of a long duration: days, hours, minutes and seconds, each
/// only when not zero, except that the seconds stand when nothing else does.
pub open spec fn duration_parts(secs: nat) -> Seq<Seq<char>> {
    let d = secs / 86400;
    let h = (secs % 86400) / 3600;
    let m = (secs % 3600) / 60;
    let s = secs % 60;
    let head = (if d > 0 {
        seq![amount(d, 'd')]
    } else {
        Seq::empty()
    }) + (if h > 0 {
        seq![amount(h, 'h')]
    } else {
        Seq::empty()
    }) + (if m > 0 {
        seq![amount(m, 'm')]
    } else {
        Seq::empty()
    });
    head + if s > 0 || head.len() == 0 {
        seq![amount(s, 's')]
    } else {
        Seq::empty()
    }
}

/// Parts joined with single spaces.
pub open spec fn join_spaced(parts: Seq<Seq<char>>) -> Seq<char>
    decreases parts.len(),
{
    if parts.len() == 0 {
        Seq::empty()
    } else if parts.len() == 1 {
        parts[0]
    } else {
        join_spaced(parts.drop_last()) + seq![' '] + parts.last()
    }
}

fn push_part(
    s: &mut String,
    first: bool,
    parts: Ghost<Seq<Seq<char>>>,
    n: u64,
    unit: &str,
    unit_char: Ghost<char>,
)
    requires
        first == (parts@.len() == 0),
        old(s)@ == join_spaced(parts@),
        unit@ == seq![unit_char@],
    ensures
        final(s)@ == join_spaced(parts@.push(amount(n as nat, unit_char@))),
{
    proof {
        reveal_strlit(" ");
        assert(" ".view() =~= seq![' ']);
        assert(parts@.push(amount(n as nat, unit_char@)).drop_last() =~= parts@);
    }
    if !first {
        s.append(" ");
    }
    push_decimal(s, n as u128);
    s.append(unit);
    assert(s@ =~= join_spaced(parts@.push(amount(n as nat, unit_char@))));
}

/// Formats a duration in seconds as days, hours, minutes and seconds,
/// leaving out the parts that are zero (`1d 1h`, `1m 5s`, `0s`).
pub fn format_duration_long(secs: u64) -> (r: String)
    ensures
        r@ == join_spaced(duration_parts(secs as nat)),
{
    proof {
        reveal_strlit("d");
        reveal_strlit("h");
        reveal_strlit("m");
        reveal_strlit("s");
        assert("d".view() =~= seq!['d']);
        assert("h".view() =~= seq!['h']);
        assert("m".view() =~= seq!['m']);
        assert("s".view() =~= seq!['s']);
    }
    let days = secs / 86400;
    let hours = (secs % 86400) / 3600;
    let minutes = (secs % 3600) / 60;
    let seconds = secs % 60;
    let mut r = String::new();
    let ghost mut parts: Seq<Seq<char>> = Seq::empty();
    if days > 0 {
        push_part(&mut r, true, Ghost(parts), days, "d", Ghost('d'));
        proof {
            parts = parts.push(amount(days as nat, 'd'));
        }
    }
    if hours > 0 {
        push_part(&mut r, days == 0, Ghost(parts), hours, "h", Ghost('h'));
        proof {
            parts = parts.push(amount(hours as nat, 'h'));
        }
    }
    if minutes > 0 {
        push_part(&mut r, days == 0 && hours == 0, Ghost(parts), minutes, "m", Ghost('m'));
        proof {
            parts = parts.push(amount(minutes as nat, 'm'));
        }
    }
    if seconds > 0 || (days == 0 && hours == 0 && minutes == 0) {
        push_part(&mut r, days == 0 && hours == 0 && minutes == 0, Ghost(parts), seconds, "s", Ghost('s'));
        proof {
            parts = parts.push(amount(seconds as nat, 's'));
        }
    }
    assert(parts =~= duration_parts(secs as nat));
    r
}

/// A duration in its two largest units: `42s`, `3m 7s`, `2h 5m`, `1d 1h`.
pub open spec fn short_duration(secs: nat) -> Seq<char> {
    if secs < 60 {
        amount(secs, 's')
    } else if secs < 3600 {
        amount(secs / 60, 'm') + seq![' '] + amount(secs % 60, 's')
    } else if secs < 86400 {
        amount(secs / 3600, 'h') + seq![' '] + amount((secs % 3600) / 60, 'm')
    } else {
        amount(secs / 86400, 'd') + seq![' '] + amount((secs % 86400) / 3600, 'h')
    }
}

/// Formats a duration in seconds in its two largest units.
pub fn format_duration(secs: u64) -> (r: String)
    ensures
        r@ == short_duration(secs as nat),
{
    proof {
        reveal_strlit("d");
        reveal_strlit("h");
        reveal_strlit("m");
        reveal_strlit("s");
        assert("d".view() =~= seq!['d']);
        assert("h".view() =~= seq!['h']);
        assert("m".view() =~= seq!['m']);
        assert("s".view() =~= seq!['s']);
        assert(Seq::<Seq<char>>::empty().push(seq!['x']).len() == 1);
    }
    let mut r = String::new();
    let ghost empty: Seq<Seq<char>> = Seq::empty();
    let (first, first_unit, second, second_unit): (u64, &str, u64, &str) = if secs < 60 {
        (secs, "s", 0, "")
    } else if secs < 3600 {
        (secs / 60, "m", secs % 60, "s")
    } else if secs < 86400 {
        (secs / 3600, "h", (secs % 3600) / 60, "m")
    } else {
        (secs / 86400, "d", (secs % 86400) / 3600, "h")
    };
    let ghost c1: char = if secs < 60 {
        's'
    } else if secs < 3600 {
        'm'
    } else if secs < 86400 {
        'h'
    } else {
        'd'
    };
    let ghost c2: char = if secs < 3600 {
        's'
    } else if secs < 86400 {
        'm'
    } else {
        'h'
    };
    push_part(&mut r, true, Ghost(empty), first, first_unit, Ghost(c1));
    if secs >= 60 {
        push_part(&mut r, false, Ghost(empty.push(amount(first as nat, c1))), second, second_unit, Ghost(c2));
        assert(empty.push(amount(first as nat, c1)).push(amount(second as nat, c2)).drop_last()
            =~= empty.push(amount(first as nat, c1)));
    }
    r
}

/// The channel value at step `i` of `n` from `a` to `b`: the exact
/// interpolation `a + (b - a) * i / n`, rounded to the nearest integer with
/// halves upwards.
pub open spec fn lerp_channel(a: int, b: int, i: int, n: int) -> int {
    (2 * (a * (n - i) + b * i) + n) / (2 * n)
}

/// The color at step `i` of `n` from `start` to `end`.
pub open spec fn gradient_color(start: (u8, u8, u8), end: (u8, u8, u8), i: int, n: int) -> (u8, u8, u8) {
    (
        lerp_channel(start.0 as int, end.0 as int, i, n) as u8,
        lerp_channel(start.1 as int, end.1 as int, i, n) as u8,
        lerp_channel(start.2 as int, end.2 as int, i, n) as u8,
    )
}

fn lerp_u8(a: u8, b: u8, i: usize, n: usize) -> (r: u8)
    requires
        0 < n,
        i <= n,
    ensures
        r as int == lerp_channel(a as int, b as int, i as int, n as int),
{
    let rest: u128 = (n - i) as u128;
    let done: u128 = i as u128;
    assert(a * rest <= 255 * 0x1_0000_0000_0000_0000 && b * done <= 255 * 0x1_0000_0000_0000_0000)
        by (nonlinear_arith)
        requires
            a <= 255,
            b <= 255,
            rest <= 0x1_0000_0000_0000_0000,
            done <= 0x1_0000_0000_0000_0000,
    ;
    let x: u128 = a as u128 * rest + b as u128 * done;
    assert(x <= 255 * (n as int)) by (nonlinear_arith)
        requires
            x == a * (n - i) + b * i,
            a <= 255,
            b <= 255,
            0 <= i <= n,
    ;
    let num: u128 = 2 * x + n as u128;
    let den: u128 = 2 * n as u128;
    let q = num / den;
    assert(q < 256) by (nonlinear_arith)
        requires
            q == num / den,
            num == 2 * x + n,
            den == 2 * n,
            x <= 255 * n,
            n > 0,
    {
        assert(num < 256 * den);
    }
    q as u8
}

/// `steps` colors going evenly from `start` to `end`, each channel rounded
/// to the nearest integer. A single step has no position between the ends
/// and comes out black.
pub fn color_gradient(start: (u8, u8, u8), end: (u8, u8, u8), steps: usize) -> (r: Vec<(u8, u8, u8)>)
    ensures
        r@.len() == steps,
        steps == 1 ==> r@[0] == (0u8, 0u8, 0u8),
        steps > 1 ==> forall|i: int|
            0 <= i < steps ==> #[trigger] r@[i] == gradient_color(start, end, i, steps - 1),
{
    let mut gradient: Vec<(u8, u8, u8)> = Vec::new();
    if steps == 1 {
        gradient.push((0, 0, 0));
        return gradient;
    }
    let mut i: usize = 0;
    while i < steps
        invariant
            steps != 1,
            i <= steps,
            gradient@.len() == i,
            forall|k: int| 0 <= k < i ==> #[trigger] gradient@[k] == gradient_color(start, end, k, steps - 1),
        decreases steps - i,
    {
        let n = steps - 1;
        let c = (lerp_u8(start.0, end.0, i, n), lerp_u8(start.1, end.1, i, n), lerp_u8(start.2, end.2, i, n));
        gradient.push(c);
        i = i + 1;
    }
    gradient
}

/// Cells of the ten-cell thermal bar that a temperature in tenths of a
/// degree fills: one per ten degrees, rounded, from none at or below zero
/// to all ten at 100 degrees and above.
pub open spec fn thermal_cells(tenths: int) -> int {
    if tenths <= 0 {
        0
    } else if (tenths + 50) / 100 > 10 {
        10
    } else {
        (tenths + 50) / 100
    }
}

/// The glyph of cell `i` of the thermal bar when it is filled: lighter
/// shades at the cool end, a full block at the hot end.
pub open spec fn thermal_glyph(i: int) -> char {
    let level = i * 4 / 10;
    if level == 0 {
        '░'
    } else if level == 1 {
        '▒'
    } else if level == 2 {
        '▓'
    } else {
        '█'
    }
}

/// The thermal bar: ten cells between brackets; the filled ones shade from
/// light to full, the rest are light.
pub open spec fn thermal_bar(tenths: int) -> Seq<char> {
    seq!['['] + Seq::new(
        10,
        |i: int|
            if i < thermal_cells(tenths) {
                thermal_glyph(i)
            } else {
                '░'
            },
    ) + seq![']']
}

/// Draws the thermal bar of a temperature given in tenths of a degree.
pub fn create_thermal_bar(tenths: i64) -> (r: String)
    ensures
        r@ == thermal_bar(tenths as int),
{
    proof {
        reveal_strlit("[");
        reveal_strlit("]");
        reveal_strlit("░");
        reveal_strlit("▒");
        reveal_strlit("▓");
        reveal_strlit("█");
        assert("[".view() =~= seq!['[']);
        assert("]".view() =~= seq![']']);
        assert("░".view() =~= seq!['░']);
        assert("▒".view() =~= seq!['▒']);
        assert("▓".view() =~= seq!['▓']);
        assert("█".view() =~= seq!['█']);
    }
    let filled: usize = if tenths <= 0 {
        0
    } else if tenths >= 1000 {
        10
    } else {
        ((tenths + 50) / 100) as usize
    };
    let ghost cells = Seq::new(
        10,
        |i: int|
            if i < thermal_cells(tenths as int) {
                thermal_glyph(i)
            } else {
                '░'
            },
    );
    let mut bar = String::from_str("[");
    let mut i: usize = 0;
    while i < 10
        invariant
            i <= 10,
            filled as int == thermal_cells(tenths as int),
            bar@ == seq!['['] + cells.subrange(0, i as int),
            cells.len() == 10,
            forall|k: int|
                0 <= k < 10 ==> #[trigger] cells[k] == (if k < thermal_cells(tenths as int) {
                    thermal_glyph(k)
                } else {
                    '░'
                }),
        decreases 10 - i,
    {
        proof {
            reveal_strlit("░");
            reveal_strlit("▒");
            reveal_strlit("▓");
            reveal_strlit("█");
            assert("░".view() =~= seq!['░']);
            assert("▒".view() =~= seq!['▒']);
            assert("▓".view() =~= seq!['▓']);
            assert("█".view() =~= seq!['█']);
        }
        let glyph = if i < filled {
            let level = i * 4 / 10;
            if level == 0 {
                "░"
            } else if level == 1 {
                "▒"
            } else if level == 2 {
                "▓"
            } else {
                "█"
            }
        } else {
            "░"
        };
        assert(glyph@ =~= seq![cells[i as int]]);
        bar.append(glyph);
        assert(bar@ =~= seq!['['] + cells.subrange(0, i + 1));
        i = i + 1;
    }
    bar.append("]");
    assert(bar@ =~= thermal_bar(tenths as int));
    bar
}

} // verus!
