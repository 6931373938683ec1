//! The device behind `adb`: coordinates, the commands that drive it and
//! what their outputs mean.
//!
//! The model and the screenshots live in the logical resolution of the
//! device; its input commands take physical pixels. Every coordinate is
//! converted on its way to the device.

use vstd::prelude::*;
use crate::agent::actions::base::DeviceCommand;
use crate::agent::actions::parse::clamp32;
use crate::agent::executor::device_errors::{
    current_app_unknown, current_app_unknown_text, is_adb_error, key_failure, key_failure_text,
    key_spawn_failure, key_spawn_failure_text, launch_device_unavailable,
    launch_device_unavailable_text, launch_failure, launch_failure_text, launch_not_installed,
    launch_not_installed_text, launch_permission_denied, launch_permission_denied_text,
    launch_spawn_failure, launch_spawn_failure_text, resolution_unknown, resolution_unknown_text,
    screenshot_failure, screenshot_failure_text, screenshot_spawn_failure,
    screenshot_spawn_failure_text, shell_failure, shell_failure_text, shell_spawn_failure,
    shell_spawn_failure_text, size_parse_failure, size_parse_failure_text, swipe_failure,
    swipe_failure_text, swipe_spawn_failure, swipe_spawn_failure_text, tap_failure,
    tap_failure_text, tap_spawn_failure, tap_spawn_failure_text, text_failure, text_failure_text,
    text_spawn_failure, text_spawn_failure_text,
};
use crate::error::AppError;
use crate::outside::{base64_encode, base64_text};
use crate::scrcpy::scrcpy::ScrcpyConnect;
use crate::text::{
    chars_of, contains, decimal, decimal_string, find_char_from, find_from, first_char_index,
    first_index, has, lemma_first_index, parse_u32, push_chars,
    push_decimal, push_text, slice_chars, string_of, strip_back, strip_back_bound, strip_front,
    strip_front_bound, trim_bounds, trimmed, unsigned_of, CharClass,
};

verus! {

/// A coordinate of the logical screen in physical pixels: the nearest
/// whole number to `logical * physical / logical_size`, halves rounded up,
/// and the largest 32-bit value where that does not fit. Where the logical
/// size is 0 there is nothing to scale by, and the coordinate stays.
pub open spec fn scaled(logical: u32, physical: u32, logical_size: u32) -> u32 {
    if logical_size == 0 {
        logical
    } else {
        clamp32(((2 * (logical * physical) + logical_size) / (2 * logical_size)) as nat)
    }
}

/// The physical point of a logical point: scaled along each axis where
/// both resolutions are known, else the logical point itself.
pub open spec fn physical_point(
    physical: Option<(u32, u32)>,
    logical_size: Option<(u32, u32)>,
    x: u32,
    y: u32,
) -> (u32, u32) {
    match (physical, logical_size) {
        (Some(p), Some(o)) => (scaled(x, p.0, o.0), scaled(y, p.1, o.1)),
        _ => (x, y),
    }
}

/// A coordinate of the logical screen in physical pixels.
pub fn scale(logical: u32, physical: u32, logical_size: u32) -> (r: u32)
    ensures
        r == scaled(logical, physical, logical_size),
{
    if logical_size == 0 {
        return logical;
    }
    assert(logical * physical <= 0xffff_ffff * 0xffff_ffff) by (nonlinear_arith)
        requires
            logical <= 0xffff_ffff,
            physical <= 0xffff_ffff,
    ;
    let product: u128 = logical as u128 * physical as u128;
    let q: u128 = (2 * product + logical_size as u128) / (2 * logical_size as u128);
    if q > 0xffff_ffff {
        0xffff_ffff
    } else {
        q as u32
    }
}

/// A scaled coordinate is the nearest whole number to the exact quotient:
/// where it fits 32 bits, it differs from `logical * physical /
/// logical_size` by at most one half.
pub proof fn lemma_scaled_is_nearest(logical: u32, physical: u32, logical_size: u32)
    requires
        logical_size > 0,
        (2 * (logical * physical) + logical_size) / (2 * logical_size) <= u32::MAX,
    ensures
        2 * (logical * physical) - logical_size < 2 * logical_size * scaled(
            logical,
            physical,
            logical_size,
        ) <= 2 * (logical * physical) + logical_size,
{
    let n = 2 * (logical * physical) + logical_size;
    let d = 2 * logical_size;
    assert(n == d * (n / d) + n % d && 0 <= n % d < d) by (nonlinear_arith)
        requires
            d > 0,
    ;
}

/// The size that one side of a resolution shows, read leniently: the text
/// is trimmed, what follows its last digit is ignored, and the rest is
/// read by `str::parse::<u32>`; 0 where that fails.
pub open spec fn dimension_loose(s: Seq<char>) -> u32 {
    match unsigned_of(strip_back(trimmed(s), CharClass::NonDigit), u32::MAX as nat) {
        Some(n) => n as u32,
        None => 0,
    }
}

/// The size that one side of a resolution shows, read strictly: the text
/// is trimmed and read by `str::parse::<u32>`.
pub open spec fn dimension_strict(s: Seq<char>) -> Option<u32> {
    match unsigned_of(trimmed(s), u32::MAX as nat) {
        Some(n) => Some(n as u32),
        None => None,
    }
}

/// What follows the first `label` of a line, up to the next `label` or
/// the end of the line, trimmed; none where the line does not hold the
/// label.
pub open spec fn after_label(line: Seq<char>, label: Seq<char>) -> Option<Seq<char>> {
    let at = first_index(line, label, 0);
    let start = at + label.len();
    let next = first_index(line, label, start);
    if at < 0 {
        None
    } else if next < 0 {
        Some(trimmed(line.subrange(start, line.len() as int)))
    } else {
        Some(trimmed(line.subrange(start, next)))
    }
}

/// The two sides of a text of the form `WIDTHxHEIGHT`: what stands before
/// and after its first `x`.
pub open spec fn sides_of(size: Seq<char>) -> Option<(Seq<char>, Seq<char>)> {
    let x = first_char_index(size, 'x', 0);
    if x < 0 {
        None
    } else {
        Some((size.subrange(0, x), size.subrange(x + 1, size.len() as int)))
    }
}

/// The longest run of digits at the end of a text.
pub open spec fn digit_suffix(s: Seq<char>) -> Seq<char> {
    s.subrange(strip_back(s, CharClass::Digit).len() as int, s.len() as int)
}

/// The longest run of digits at the start of a text.
pub open spec fn digit_prefix(s: Seq<char>) -> Seq<char> {
    s.subrange(0, s.len() - strip_front(s, CharClass::Digit).len())
}

/// The number that a run of digits shows, or 0 where it is empty or too
/// large for 32 bits.
pub open spec fn digits_or_zero(s: Seq<char>) -> u32 {
    match unsigned_of(s, u32::MAX as nat) {
        Some(n) => n as u32,
        None => 0,
    }
}

/// How a line is searched for a screen size.
#[derive(Debug, Clone, Copy, PartialEq, Eq)]
pub enum SizeRule {
    /// After the label `Physical size:`, read leniently.
    Physical,
    /// After the label `Override size:`, read leniently.
    Override,
    /// Around the first `x` of the line: the digits that end before it and
    /// the digits that begin after it.
    Bare,
}

/// The label of the physical resolution in the output of `wm size`.
pub open spec fn physical_label() -> Seq<char> {
    "Physical size:"@
}

/// The label of the logical resolution in the output of `wm size`.
pub open spec fn override_label() -> Seq<char> {
    "Override size:"@
}

/// The sizes that a line shows under a rule, before any check: none where
/// the line has not the form that the rule asks for.
pub open spec fn raw_size_in_line(line: Seq<char>, rule: SizeRule) -> Option<(u32, u32)> {
    match rule {
        SizeRule::Physical => match after_label(line, physical_label()) {
            Some(size) => match sides_of(size) {
                Some(sides) => Some((dimension_loose(sides.0), dimension_loose(sides.1))),
                None => None,
            },
            None => None,
        },
        SizeRule::Override => match after_label(line, override_label()) {
            Some(size) => match sides_of(size) {
                Some(sides) => Some((dimension_loose(sides.0), dimension_loose(sides.1))),
                None => None,
            },
            None => None,
        },
        SizeRule::Bare => match sides_of(line) {
            Some(sides) => Some(
                (digits_or_zero(digit_suffix(sides.0)), digits_or_zero(digit_prefix(sides.1))),
            ),
            None => None,
        },
    }
}

/// The screen size that a line shows under a rule: both sides must be
/// positive.
pub open spec fn size_in_line(line: Seq<char>, rule: SizeRule) -> Option<(u32, u32)> {
    match raw_size_in_line(line, rule) {
        Some(size) => if size.0 > 0 && size.1 > 0 {
            Some(size)
        } else {
            None
        },
        None => None,
    }
}

/// The end of the line that begins at `from`: the index of the next line
/// break, or the end of the text.
pub open spec fn line_end(s: Seq<char>, from: int) -> int {
    let i = first_char_index(s, '\n', from);
    if i < from || i > s.len() {
        s.len() as int
    } else {
        i
    }
}

/// The screen size of the first line, from the line that begins at `from`
/// on, that shows one under a rule.
pub open spec fn size_in_lines(s: Seq<char>, from: int, rule: SizeRule) -> Option<(u32, u32)>
    decreases s.len() - from,
{
    if from < 0 || from > s.len() {
        None
    } else {
        let end = line_end(s, from);
        match size_in_line(s.subrange(from, end), rule) {
            Some(size) => Some(size),
            None => if end >= s.len() {
                None
            } else {
                size_in_lines(s, end + 1, rule)
            },
        }
    }
}

/// The screen size that the output of `wm size` shows: the physical size
/// where a line shows one, else the logical size, else the first size of
/// the bare form `WIDTHxHEIGHT`.
pub open spec fn screen_size_in(output: Seq<char>) -> Option<(u32, u32)> {
    if size_in_lines(output, 0, SizeRule::Physical) is Some {
        size_in_lines(output, 0, SizeRule::Physical)
    } else if size_in_lines(output, 0, SizeRule::Override) is Some {
        size_in_lines(output, 0, SizeRule::Override)
    } else {
        size_in_lines(output, 0, SizeRule::Bare)
    }
}

/// The resolution that a line states after a label, read strictly.
pub open spec fn stated_in_line(line: Seq<char>, label: Seq<char>) -> Option<(u32, u32)> {
    match after_label(line, label) {
        Some(size) => match sides_of(size) {
            Some(sides) => match (dimension_strict(sides.0), dimension_strict(sides.1)) {
                (Some(w), Some(h)) => Some((w, h)),
                _ => None,
            },
            None => None,
        },
        None => None,
    }
}

/// The resolution that the last line which states one after a label
/// states, from the line that begins at `from` on; `found` where no line
/// does.
pub open spec fn stated_in_lines(
    s: Seq<char>,
    from: int,
    label: Seq<char>,
    found: Option<(u32, u32)>,
) -> Option<(u32, u32)>
    decreases s.len() - from,
{
    if from < 0 || from > s.len() {
        found
    } else {
        let end = line_end(s, from);
        let now = match stated_in_line(s.subrange(from, end), label) {
            Some(size) => Some(size),
            None => found,
        };
        if end >= s.len() {
            now
        } else {
            stated_in_lines(s, end + 1, label, now)
        }
    }
}

fn loose_dimension(s: &[char], lo: usize, hi: usize) -> (r: u32)
    requires
        lo <= hi <= s@.len(),
    ensures
        r == dimension_loose(s@.subrange(lo as int, hi as int)),
{
    let (a, b) = trim_bounds(s, lo, hi);
    let c = strip_back_bound(s, a, b, CharClass::NonDigit);
    let digits = slice_chars(s, a, c);
    match parse_u32(digits.as_slice()) {
        Some(n) => n,
        None => 0,
    }
}

fn strict_dimension(s: &[char], lo: usize, hi: usize) -> (r: Option<u32>)
    requires
        lo <= hi <= s@.len(),
    ensures
        r == dimension_strict(s@.subrange(lo as int, hi as int)),
{
    let (a, b) = trim_bounds(s, lo, hi);
    let digits = slice_chars(s, a, b);
    parse_u32(digits.as_slice())
}

fn digits_value_or_zero(s: &[char], lo: usize, hi: usize) -> (r: u32)
    requires
        lo <= hi <= s@.len(),
    ensures
        r == digits_or_zero(s@.subrange(lo as int, hi as int)),
{
    let digits = slice_chars(s, lo, hi);
    match parse_u32(digits.as_slice()) {
        Some(n) => n,
        None => 0,
    }
}

/// The bounds of what follows the first `label` of the line `s[lo..hi]`,
/// trimmed.
fn label_bounds(s: &[char], lo: usize, hi: usize, label: &[char]) -> (r: Option<(usize, usize)>)
    requires
        lo <= hi <= s@.len(),
    ensures
        match r {
            Some(b) => lo <= b.0 <= b.1 <= hi && after_label(
                s@.subrange(lo as int, hi as int),
                label@,
            ) == Some(s@.subrange(b.0 as int, b.1 as int)),
            None => after_label(s@.subrange(lo as int, hi as int), label@) is None,
        },
{
    let line = slice_chars(s, lo, hi);
    let at = match find_from(line.as_slice(), label, 0) {
        Some(at) => at,
        None => {
            return None;
        },
    };
    proof {
        lemma_first_index(line@, label@, 0);
    }
    let start: usize = at + label.len();
    let end: usize = match find_from(line.as_slice(), label, start) {
        Some(next) => {
            proof {
                lemma_first_index(line@, label@, start as int);
            }
            next
        },
        None => line.len(),
    };
    let (a, b) = trim_bounds(line.as_slice(), start, end);
    proof {
        assert(line@.subrange(a as int, b as int) =~= s@.subrange(lo + a, lo + b));
    }
    Some((lo + a, lo + b))
}

/// The index of the first `x` of `s[lo..hi]`.
fn x_in(s: &[char], lo: usize, hi: usize) -> (r: Option<usize>)
    requires
        lo <= hi <= s@.len(),
    ensures
        match r {
            Some(x) => lo <= x < hi && sides_of(s@.subrange(lo as int, hi as int)) == Some(
                (s@.subrange(lo as int, x as int), s@.subrange(x + 1, hi as int)),
            ),
            None => sides_of(s@.subrange(lo as int, hi as int)) is None,
        },
{
    let part = slice_chars(s, lo, hi);
    match find_char_from(part.as_slice(), 'x', 0) {
        Some(x) => {
            proof {
                assert(part@.subrange(0, x as int) =~= s@.subrange(lo as int, lo + x));
                assert(part@.subrange(x + 1, part@.len() as int) =~= s@.subrange(
                    lo + x + 1,
                    hi as int,
                ));
            }
            Some(lo + x)
        },
        None => None,
    }
}

fn line_size(s: &[char], lo: usize, hi: usize, rule: SizeRule) -> (r: Option<(u32, u32)>)
    requires
        lo <= hi <= s@.len(),
    ensures
        r == size_in_line(s@.subrange(lo as int, hi as int), rule),
{
    let raw: Option<(u32, u32)> = match rule {
        SizeRule::Bare => match x_in(s, lo, hi) {
            Some(x) => {
                let before = strip_back_bound(s, lo, x, CharClass::Digit);
                let after = strip_front_bound(s, x + 1, hi, CharClass::Digit);
                proof {
                    let left = s@.subrange(lo as int, x as int);
                    let right = s@.subrange(x + 1, hi as int);
                    assert(strip_back(left, CharClass::Digit).len() == before - lo);
                    assert(digit_suffix(left) =~= s@.subrange(before as int, x as int));
                    assert(strip_front(right, CharClass::Digit).len() == hi - after);
                    assert(digit_prefix(right) =~= s@.subrange(x + 1, after as int));
                }
                Some((digits_value_or_zero(s, before, x), digits_value_or_zero(s, x + 1, after)))
            },
            None => None,
        },
        _ => {
            let label = match rule {
                SizeRule::Physical => chars_of("Physical size:"),
                _ => chars_of("Override size:"),
            };
            match label_bounds(s, lo, hi, label.as_slice()) {
                Some(b) => match x_in(s, b.0, b.1) {
                    Some(x) => Some((loose_dimension(s, b.0, x), loose_dimension(s, x + 1, b.1))),
                    None => None,
                },
                None => None,
            }
        },
    };
    match raw {
        Some(size) => if size.0 > 0 && size.1 > 0 {
            Some(size)
        } else {
            None
        },
        None => None,
    }
}

fn end_of_line(s: &[char], from: usize) -> (end: usize)
    requires
        from <= s@.len(),
    ensures
        end == line_end(s@, from as int),
        from <= end <= s@.len(),
{
    match find_char_from(s, '\n', from) {
        Some(i) => i,
        None => s.len(),
    }
}

fn lines_size(s: &[char], rule: SizeRule) -> (r: Option<(u32, u32)>)
    ensures
        r == size_in_lines(s@, 0, rule),
{
    let n: usize = s.len();
    let mut from: usize = 0;
    loop
        invariant
            n == s@.len(),
            from <= s@.len(),
            size_in_lines(s@, 0, rule) == size_in_lines(s@, from as int, rule),
        decreases s@.len() - from,
    {
        let end = end_of_line(s, from);
        match line_size(s, from, end, rule) {
            Some(size) => {
                return Some(size);
            },
            None => {},
        }
        if end >= n {
            return None;
        }
        from = end + 1;
    }
}

fn line_stated(s: &[char], lo: usize, hi: usize, label: &[char]) -> (r: Option<(u32, u32)>)
    requires
        lo <= hi <= s@.len(),
    ensures
        r == stated_in_line(s@.subrange(lo as int, hi as int), label@),
{
    match label_bounds(s, lo, hi, label) {
        Some(b) => match x_in(s, b.0, b.1) {
            Some(x) => match (strict_dimension(s, b.0, x), strict_dimension(s, x + 1, b.1)) {
                (Some(w), Some(h)) => Some((w, h)),
                _ => None,
            },
            None => None,
        },
        None => None,
    }
}

fn lines_stated(s: &[char], label: &[char]) -> (r: Option<(u32, u32)>)
    ensures
        r == stated_in_lines(s@, 0, label@, None),
{
    let n: usize = s.len();
    let mut from: usize = 0;
    let mut found: Option<(u32, u32)> = None;
    loop
        invariant
            n == s@.len(),
            from <= s@.len(),
            stated_in_lines(s@, 0, label@, None) == stated_in_lines(s@, from as int, label@, found),
        decreases s@.len() - from,
    {
        let end = end_of_line(s, from);
        match line_stated(s, from, end, label) {
            Some(size) => {
                found = Some(size);
            },
            None => {},
        }
        if end >= n {
            return found;
        }
        from = end + 1;
    }
}

/// The screen size that the output of `wm size` shows, or the error that
/// quotes the output where it shows none.
pub fn parse_screen_size(output: &str) -> (r: Result<(u32, u32), AppError>)
    ensures
        match r {
            Ok(size) => screen_size_in(output@) == Some(size),
            Err(e) => screen_size_in(output@) is None && is_adb_error(
                e,
                size_parse_failure_text(output@),
            ),
        },
{
    let s = chars_of(output);
    match lines_size(s.as_slice(), SizeRule::Physical) {
        Some(size) => {
            return Ok(size);
        },
        None => {},
    }
    match lines_size(s.as_slice(), SizeRule::Override) {
        Some(size) => {
            return Ok(size);
        },
        None => {},
    }
    match lines_size(s.as_slice(), SizeRule::Bare) {
        Some(size) => Ok(size),
        None => Err(size_parse_failure(output)),
    }
}

/// The text as the `input text` command of the device takes it: a space
/// is written `%s`, and each of `& ( ) ; | < >` is preceded by a
/// backslash.
pub open spec fn escaped(text: Seq<char>) -> Seq<char>
    decreases text.len(),
{
    if text.len() == 0 {
        Seq::empty()
    } else {
        escaped(text.drop_last()) + escaped_char(text.last())
    }
}

/// One character as the `input text` command takes it.
pub open spec fn escaped_char(c: char) -> Seq<char> {
    if c == ' ' {
        seq!['%', 's']
    } else if c == '&' || c == '(' || c == ')' || c == ';' || c == '|' || c == '<' || c == '>' {
        seq!['\\', c]
    } else {
        seq![c]
    }
}

/// The text as the `input text` command of the device takes it.
pub fn escape_text(text: &str) -> (r: String)
    ensures
        r@ == escaped(text@),
{
    let s = chars_of(text);
    let mut out: Vec<char> = Vec::new();
    let mut i: usize = 0;
    proof {
        assert(s@.take(0) =~= Seq::<char>::empty());
    }
    while i < s.len()
        invariant
            i <= s@.len(),
            out@ == escaped(s@.take(i as int)),
        decreases s@.len() - i,
    {
        let c = s[i];
        let ghost before = out@;
        proof {
            assert(s@.take(i + 1).drop_last() =~= s@.take(i as int));
            assert(s@.take(i + 1).last() == c);
        }
        if c == ' ' {
            out.push('%');
            out.push('s');
            proof {
                assert(out@ =~= before + seq!['%', 's']);
            }
        } else if c == '&' || c == '(' || c == ')' || c == ';' || c == '|' || c == '<' || c == '>' {
            out.push('\\');
            out.push(c);
            proof {
                assert(out@ =~= before + seq!['\\', c]);
            }
        } else {
            out.push(c);
            proof {
                assert(out@ =~= before + seq![c]);
            }
        }
        i += 1;
    }
    proof {
        assert(s@.take(s@.len() as int) =~= s@);
    }
    string_of(out.as_slice())
}

/// The package of the app in front, as the focus line of the window dump
/// shows it: what stands between the first space and the first `/` after
/// it.
pub open spec fn focused_package(output: Seq<char>) -> Option<Seq<char>> {
    let start = first_char_index(output, ' ', 0);
    let end = first_char_index(output, '/', start + 1);
    if start < 0 || end < 0 {
        None
    } else {
        Some(output.subrange(start + 1, end))
    }
}

/// The package of the app in front, or the error where the output does
/// not show it.
pub fn parse_current_app(output: &str) -> (r: Result<String, AppError>)
    ensures
        match r {
            Ok(package) => focused_package(output@) == Some(package@),
            Err(e) => focused_package(output@) is None && is_adb_error(
                e,
                current_app_unknown_text(),
            ),
        },
{
    let s = chars_of(output);
    let n: usize = s.len();
    match find_char_from(s.as_slice(), ' ', 0) {
        Some(start) => match find_char_from(s.as_slice(), '/', start + 1) {
            Some(end) => {
                let package = slice_chars(s.as_slice(), start + 1, end);
                Ok(string_of(package.as_slice()))
            },
            None => Err(current_app_unknown()),
        },
        None => Err(current_app_unknown()),
    }
}

/// What running a command on the device gave.
#[derive(Debug, Clone, PartialEq, Eq)]
pub struct CommandOutput {
    /// Whether the command ended with success.
    pub success: bool,
    /// The exit code, where the command ended with one.
    pub code: Option<i32>,
    pub stdout: String,
    pub stderr: String,
}

/// One step of what a device is asked to do.
#[derive(Debug, Clone, PartialEq, Eq)]
pub enum DeviceStep {
    /// Run `adb` with these arguments.
    Adb { args: Vec<String> },
    /// Wait for this many milliseconds.
    Sleep { ms: u64 },
}

/// The mathematical value of a [`DeviceStep`].
pub enum DeviceStepView {
    Adb { args: Seq<Seq<char>> },
    Sleep { ms: u64 },
}

impl DeepView for DeviceStep {
    type V = DeviceStepView;

    open spec fn deep_view(&self) -> DeviceStepView {
        match *self {
            DeviceStep::Adb { args } => DeviceStepView::Adb { args: args.deep_view() },
            DeviceStep::Sleep { ms } => DeviceStepView::Sleep { ms },
        }
    }
}

/// The arguments of `adb` for a shell command on the device `serial`.
pub open spec fn shell_args(serial: Seq<char>, words: Seq<Seq<char>>) -> Seq<Seq<char>> {
    seq!["-s"@, serial, "shell"@] + words
}

/// The words of the command that taps a physical point.
pub open spec fn tap_words(p: (u32, u32)) -> Seq<Seq<char>> {
    seq!["input"@, "tap"@, decimal(p.0 as nat), decimal(p.1 as nat)]
}

/// The words of the command that swipes between two physical points.
pub open spec fn swipe_words(from: (u32, u32), to: (u32, u32), duration_ms: u32) -> Seq<Seq<char>> {
    seq![
        "input"@,
        "swipe"@,
        decimal(from.0 as nat),
        decimal(from.1 as nat),
        decimal(to.0 as nat),
        decimal(to.1 as nat),
        decimal(duration_ms as nat),
    ]
}

/// The words of the command that types a text.
pub open spec fn text_words(text: Seq<char>) -> Seq<Seq<char>> {
    seq!["input"@, "text"@, escaped(text)]
}

/// The words of the command that presses a key.
pub open spec fn key_words(keycode: u32) -> Seq<Seq<char>> {
    seq!["input"@, "keyevent"@, decimal(keycode as nat)]
}

/// The words of the command that starts the launcher activity of a
/// package.
pub open spec fn launch_words(package: Seq<char>) -> Seq<Seq<char>> {
    seq!["monkey"@, "-p"@, package, "-c"@, "android.intent.category.LAUNCHER"@, "1"@]
}

/// The key code of the back key.
pub const KEYCODE_BACK: u32 = 4;

/// The key code of the home key.
pub const KEYCODE_HOME: u32 = 3;

/// The key code of the key that shows the recent tasks.
pub const KEYCODE_APP_SWITCH: u32 = 187;

/// The pause between the two taps of a double tap, in milliseconds.
pub const DOUBLE_TAP_GAP_MS: u64 = 100;

/// The pause after a launch, in milliseconds.
pub const LAUNCH_SETTLE_MS: u64 = 1000;

/// A device behind `adb`, with what is known of its two resolutions.
#[derive(Debug, Clone, PartialEq, Eq)]
pub struct ScrcpyDeviceWrapper {
    pub serial: String,
    pub name: String,
    pub scrcpy_connect: ScrcpyConnect,
    /// The resolution of the panel, which input commands are given in.
    pub physical_resolution: Option<(u32, u32)>,
    /// The resolution that apps, screenshots and the model see.
    pub override_resolution: Option<(u32, u32)>,
}

impl ScrcpyDeviceWrapper {
    /// The physical point of a logical point on this device.
    pub open spec fn physical(self, x: u32, y: u32) -> (u32, u32) {
        physical_point(self.physical_resolution, self.override_resolution, x, y)
    }

    /// The steps that perform a command on this device. `text` is the
    /// text of a text input and `package` the package of a launch.
    ///
    /// A double tap is two taps 100 ms apart, a long press a swipe that
    /// stays in place, the notification shade a swipe down from the top
    /// edge; back, home and recent tasks are key presses; a launch is
    /// followed by a pause of one second.
    pub open spec fn steps_of(
        self,
        command: DeviceCommand,
        text: Seq<char>,
        package: Seq<char>,
    ) -> Seq<DeviceStepView> {
        let serial = self.serial@;
        match command {
            DeviceCommand::Tap { x, y } => seq![
                DeviceStepView::Adb { args: shell_args(serial, tap_words(self.physical(x, y))) },
            ],
            DeviceCommand::DoubleTap { x, y } => seq![
                DeviceStepView::Adb { args: shell_args(serial, tap_words(self.physical(x, y))) },
                DeviceStepView::Sleep { ms: 100 },
                DeviceStepView::Adb { args: shell_args(serial, tap_words(self.physical(x, y))) },
            ],
            DeviceCommand::LongPress { x, y, duration_ms } => seq![
                DeviceStepView::Adb {
                    args: shell_args(
                        serial,
                        swipe_words(self.physical(x, y), self.physical(x, y), duration_ms),
                    ),
                },
            ],
            DeviceCommand::Swipe { start_x, start_y, end_x, end_y, duration_ms } => seq![
                DeviceStepView::Adb {
                    args: shell_args(
                        serial,
                        swipe_words(
                            self.physical(start_x, start_y),
                            self.physical(end_x, end_y),
                            duration_ms,
                        ),
                    ),
                },
            ],
            DeviceCommand::InputText => seq![
                DeviceStepView::Adb { args: shell_args(serial, text_words(text)) },
            ],
            DeviceCommand::PressKey { keycode } => seq![
                DeviceStepView::Adb { args: shell_args(serial, key_words(keycode)) },
            ],
            DeviceCommand::Back => seq![
                DeviceStepView::Adb { args: shell_args(serial, key_words(4)) },
            ],
            DeviceCommand::Home => seq![
                DeviceStepView::Adb { args: shell_args(serial, key_words(3)) },
            ],
            DeviceCommand::Recent => seq![
                DeviceStepView::Adb { args: shell_args(serial, key_words(187)) },
            ],
            DeviceCommand::Notification => seq![
                DeviceStepView::Adb {
                    args: shell_args(
                        serial,
                        swipe_words(self.physical(540, 0), self.physical(540, 500), 300),
                    ),
                },
            ],
            DeviceCommand::LaunchApp => seq![
                DeviceStepView::Adb { args: shell_args(serial, launch_words(package)) },
                DeviceStepView::Sleep { ms: 1000 },
            ],
            DeviceCommand::Sleep { duration_ms } => seq![
                DeviceStepView::Sleep { ms: duration_ms as u64 },
            ],
            DeviceCommand::Screenshot => seq![
                DeviceStepView::Adb { args: shell_args(serial, seq!["screencap"@, "-p"@]) },
            ],
            DeviceCommand::Nothing => Seq::empty(),
        }
    }

    /// A device of which no resolution is known yet.
    pub fn new(serial: String, name: String, scrcpy_connect: ScrcpyConnect) -> (r: Self)
        ensures
            r.serial == serial,
            r.name == name,
            r.scrcpy_connect == scrcpy_connect,
            r.physical_resolution is None,
            r.override_resolution is None,
    {
        Self { serial, name, scrcpy_connect, physical_resolution: None, override_resolution: None }
    }

    /// The serial of the device.
    pub fn serial(&self) -> (r: &str)
        ensures
            r@ == self.serial@,
    {
        self.serial.as_str()
    }

    /// The name of the device.
    pub fn name(&self) -> (r: &str)
        ensures
            r@ == self.name@,
    {
        self.name.as_str()
    }

    /// The physical point of a logical point: scaled by the ratio of the
    /// physical to the logical resolution along each axis where both are
    /// known, else the logical point itself.
    pub fn convert_to_physical_coords(&self, logical_x: u32, logical_y: u32) -> (r: (u32, u32))
        ensures
            r == self.physical(logical_x, logical_y),
    {
        match (self.physical_resolution, self.override_resolution) {
            (Some(p), Some(o)) => (scale(logical_x, p.0, o.0), scale(logical_y, p.1, o.1)),
            _ => (logical_x, logical_y),
        }
    }

    /// Takes in the output of `wm size`: each resolution is what the last
    /// line that states it says, and unknown where no line does.
    pub fn parse_and_store_resolution(&mut self, output: &str)
        ensures
            final(self).serial == old(self).serial,
            final(self).name == old(self).name,
            final(self).scrcpy_connect == old(self).scrcpy_connect,
            final(self).physical_resolution == stated_in_lines(
                output@,
                0,
                physical_label(),
                None,
            ),
            final(self).override_resolution == stated_in_lines(
                output@,
                0,
                override_label(),
                None,
            ),
    {
        let s = chars_of(output);
        let physical = chars_of("Physical size:");
        let logical = chars_of("Override size:");
        self.physical_resolution = lines_stated(s.as_slice(), physical.as_slice());
        self.override_resolution = lines_stated(s.as_slice(), logical.as_slice());
    }

    /// The size of the screen as the model sees it: the logical
    /// resolution, else the physical one, else the error that no
    /// resolution is known.
    pub fn screen_size(&self) -> (r: Result<(u32, u32), AppError>)
        ensures
            match r {
                Ok(size) => if self.override_resolution is Some {
                    self.override_resolution == Some(size)
                } else {
                    self.physical_resolution == Some(size)
                },
                Err(e) => self.override_resolution is None && self.physical_resolution is None
                    && is_adb_error(e, resolution_unknown_text()),
            },
    {
        match self.override_resolution {
            Some(size) => Ok(size),
            None => match self.physical_resolution {
                Some(size) => Ok(size),
                None => Err(resolution_unknown()),
            },
        }
    }

    fn shell(&self, words: Vec<String>) -> (r: Vec<String>)
        ensures
            r.deep_view() == shell_args(self.serial@, words.deep_view()),
    {
        let mut args: Vec<String> = Vec::new();
        args.push("-s".to_owned());
        args.push(self.serial.clone());
        args.push("shell".to_owned());
        let ghost head = args.deep_view();
        proof {
            assert(head =~= seq!["-s"@, self.serial@, "shell"@]);
        }
        let mut i: usize = 0;
        while i < words.len()
            invariant
                i <= words@.len(),
                args.deep_view() == head + words.deep_view().take(i as int),
            decreases words@.len() - i,
        {
            let ghost before = args.deep_view();
            args.push(words[i].clone());
            proof {
                assert(args.deep_view() =~= before.push(words@[i as int]@));
                assert(args.deep_view() =~= head + words.deep_view().take(i + 1));
            }
            i += 1;
        }
        proof {
            assert(words.deep_view().take(words@.len() as int) =~= words.deep_view());
        }
        args
    }

    /// The arguments of `adb` that tap a logical point.
    pub fn tap_args(&self, x: u32, y: u32) -> (r: Vec<String>)
        ensures
            r.deep_view() == shell_args(self.serial@, tap_words(self.physical(x, y))),
    {
        let p = self.convert_to_physical_coords(x, y);
        let words = vec![
            "input".to_owned(),
            "tap".to_owned(),
            decimal_string(p.0 as u64),
            decimal_string(p.1 as u64),
        ];
        proof {
            assert(words.deep_view() =~= tap_words(p));
        }
        self.shell(words)
    }

    /// The arguments of `adb` that swipe between two logical points.
    pub fn swipe_args(&self, start_x: u32, start_y: u32, end_x: u32, end_y: u32, duration_ms: u32) -> (r:
        Vec<String>)
        ensures
            r.deep_view() == shell_args(
                self.serial@,
                swipe_words(
                    self.physical(start_x, start_y),
                    self.physical(end_x, end_y),
                    duration_ms,
                ),
            ),
    {
        let a = self.convert_to_physical_coords(start_x, start_y);
        let b = self.convert_to_physical_coords(end_x, end_y);
        let words = vec![
            "input".to_owned(),
            "swipe".to_owned(),
            decimal_string(a.0 as u64),
            decimal_string(a.1 as u64),
            decimal_string(b.0 as u64),
            decimal_string(b.1 as u64),
            decimal_string(duration_ms as u64),
        ];
        proof {
            assert(words.deep_view() =~= swipe_words(a, b, duration_ms));
        }
        self.shell(words)
    }

    /// The arguments of `adb` that type a text.
    pub fn text_args(&self, text: &str) -> (r: Vec<String>)
        ensures
            r.deep_view() == shell_args(self.serial@, text_words(text@)),
    {
        let words = vec!["input".to_owned(), "text".to_owned(), escape_text(text)];
        proof {
            assert(words.deep_view() =~= text_words(text@));
        }
        self.shell(words)
    }

    /// The arguments of `adb` that press a key.
    pub fn key_args(&self, keycode: u32) -> (r: Vec<String>)
        ensures
            r.deep_view() == shell_args(self.serial@, key_words(keycode)),
    {
        let words = vec!["input".to_owned(), "keyevent".to_owned(), decimal_string(keycode as u64)];
        proof {
            assert(words.deep_view() =~= key_words(keycode));
        }
        self.shell(words)
    }

    /// The arguments of `adb` that launch a package.
    pub fn launch_args(&self, package: &str) -> (r: Vec<String>)
        ensures
            r.deep_view() == shell_args(self.serial@, launch_words(package@)),
    {
        let words = vec![
            "monkey".to_owned(),
            "-p".to_owned(),
            package.to_owned(),
            "-c".to_owned(),
            "android.intent.category.LAUNCHER".to_owned(),
            "1".to_owned(),
        ];
        proof {
            assert(words.deep_view() =~= launch_words(package@));
        }
        self.shell(words)
    }

    /// The arguments of `adb` that capture the screen as a PNG.
    pub fn screencap_args(&self) -> (r: Vec<String>)
        ensures
            r.deep_view() == shell_args(self.serial@, seq!["screencap"@, "-p"@]),
    {
        let words = vec!["screencap".to_owned(), "-p".to_owned()];
        proof {
            assert(words.deep_view() =~= seq!["screencap"@, "-p"@]);
        }
        self.shell(words)
    }

    /// The arguments of `adb` that ask the device for its resolutions.
    pub fn wm_size_args(&self) -> (r: Vec<String>)
        ensures
            r.deep_view() == shell_args(self.serial@, seq!["wm size"@]),
    {
        let words = vec!["wm size".to_owned()];
        proof {
            assert(words.deep_view() =~= seq!["wm size"@]);
        }
        self.shell(words)
    }

    /// The arguments of `adb` that test whether the device answers.
    pub fn ping_args(&self) -> (r: Vec<String>)
        ensures
            r.deep_view() == shell_args(self.serial@, seq!["echo"@, "ping"@]),
    {
        let words = vec!["echo".to_owned(), "ping".to_owned()];
        proof {
            assert(words.deep_view() =~= seq!["echo"@, "ping"@]);
        }
        self.shell(words)
    }

    /// The arguments of `adb` that ask the device for the window in focus.
    pub fn current_app_args(&self) -> (r: Vec<String>)
        ensures
            r.deep_view() == shell_args(
                self.serial@,
                seq!["dumpsys window windows | grep -E 'mCurrentFocus'"@],
            ),
    {
        let words = vec!["dumpsys window windows | grep -E 'mCurrentFocus'".to_owned()];
        proof {
            assert(words.deep_view() =~= seq![
                "dumpsys window windows | grep -E 'mCurrentFocus'"@,
            ]);
        }
        self.shell(words)
    }

    /// The steps that perform a command on this device, in order. `text`
    /// is the text of a text input and `package` the package of a launch.
    pub fn steps_for(&self, command: DeviceCommand, text: &str, package: &str) -> (r: Vec<
        DeviceStep,
    >)
        ensures
            r.deep_view() == self.steps_of(command, text@, package@),
    {
        let steps = match command {
            DeviceCommand::Tap { x, y } => vec![DeviceStep::Adb { args: self.tap_args(x, y) }],
            DeviceCommand::DoubleTap { x, y } => vec![
                DeviceStep::Adb { args: self.tap_args(x, y) },
                DeviceStep::Sleep { ms: DOUBLE_TAP_GAP_MS },
                DeviceStep::Adb { args: self.tap_args(x, y) },
            ],
            DeviceCommand::LongPress { x, y, duration_ms } => vec![
                DeviceStep::Adb { args: self.swipe_args(x, y, x, y, duration_ms) },
            ],
            DeviceCommand::Swipe { start_x, start_y, end_x, end_y, duration_ms } => vec![
                DeviceStep::Adb { args: self.swipe_args(start_x, start_y, end_x, end_y, duration_ms) },
            ],
            DeviceCommand::InputText => vec![DeviceStep::Adb { args: self.text_args(text) }],
            DeviceCommand::PressKey { keycode } => vec![
                DeviceStep::Adb { args: self.key_args(keycode) },
            ],
            DeviceCommand::Back => vec![DeviceStep::Adb { args: self.key_args(KEYCODE_BACK) }],
            DeviceCommand::Home => vec![DeviceStep::Adb { args: self.key_args(KEYCODE_HOME) }],
            DeviceCommand::Recent => vec![
                DeviceStep::Adb { args: self.key_args(KEYCODE_APP_SWITCH) },
            ],
            DeviceCommand::Notification => vec![
                DeviceStep::Adb { args: self.swipe_args(540, 0, 540, 500, 300) },
            ],
            DeviceCommand::LaunchApp => vec![
                DeviceStep::Adb { args: self.launch_args(package) },
                DeviceStep::Sleep { ms: LAUNCH_SETTLE_MS },
            ],
            DeviceCommand::Sleep { duration_ms } => vec![DeviceStep::Sleep { ms: duration_ms as u64 }],
            DeviceCommand::Screenshot => vec![DeviceStep::Adb { args: self.screencap_args() }],
            DeviceCommand::Nothing => Vec::new(),
        };
        proof {
            assert(steps.deep_view() =~= self.steps_of(command, text@, package@));
        }
        steps
    }
}

/// What the outcome of a launch means: success, or the error that fits
/// what the command printed. The device has not the package where either
/// output says `No package found`; it is not reachable where the error
/// output says `device not found` or `device offline`; it forbids the
/// launch where the error output says `permission denied`; any other
/// failure is reported with the error output, else the output, else the
/// exit code.
pub open spec fn launch_error_text(
    serial: Seq<char>,
    package: Seq<char>,
    stdout: Seq<char>,
    stderr: Seq<char>,
    code: Seq<char>,
) -> Seq<char> {
    if has(stderr, "No package found"@) || has(stdout, "No package found"@) {
        launch_not_installed_text(package)
    } else if has(stderr, "device not found"@) || has(stderr, "device offline"@) {
        launch_device_unavailable_text(serial)
    } else if has(stderr, "permission denied"@) {
        launch_permission_denied_text()
    } else if stderr.len() > 0 {
        launch_failure_text(package, stderr)
    } else if stdout.len() > 0 {
        launch_failure_text(package, stdout)
    } else {
        launch_failure_text(package, "未知错误 (退出码: "@ + code + ")"@)
    }
}

/// An exit code as `{:?}` shows it.
pub open spec fn code_text(code: Option<i32>) -> Seq<char> {
    match code {
        Some(c) => if c < 0 {
            "Some(-"@ + decimal((-c) as nat) + ")"@
        } else {
            "Some("@ + decimal(c as nat) + ")"@
        },
        None => "None"@,
    }
}

fn code_string(code: Option<i32>) -> (r: String)
    ensures
        r@ == code_text(code),
{
    match code {
        Some(c) => {
            if c < 0 {
                let mut v = chars_of("Some(-");
                push_decimal(&mut v, (-(c as i64)) as u64);
                push_text(&mut v, ")");
                string_of(v.as_slice())
            } else {
                let mut v = chars_of("Some(");
                push_decimal(&mut v, c as u64);
                push_text(&mut v, ")");
                string_of(v.as_slice())
            }
        },
        None => "None".to_owned(),
    }
}

fn holds(hay: &[char], needle: &str) -> (b: bool)
    ensures
        b == has(hay@, needle@),
{
    let n = chars_of(needle);
    contains(hay, n.as_slice())
}

impl ScrcpyDeviceWrapper {
    /// What the outcome of a launch means. `result` is the output of the
    /// command, or the cause for which it could not be run.
    pub fn check_launch(&self, package: &str, result: &Result<CommandOutput, String>) -> (r:
        Result<(), AppError>)
        ensures
            match *result {
                Ok(output) => if output.success {
                    r is Ok
                } else {
                    r matches Err(e) && is_adb_error(
                        e,
                        launch_error_text(
                            self.serial@,
                            package@,
                            output.stdout@,
                            output.stderr@,
                            code_text(output.code),
                        ),
                    )
                },
                Err(cause) => r matches Err(e) && is_adb_error(
                    e,
                    launch_spawn_failure_text(cause@),
                ),
            },
    {
        match result {
            Err(cause) => Err(launch_spawn_failure(cause.as_str())),
            Ok(output) => {
                if output.success {
                    return Ok(());
                }
                let out = chars_of(output.stdout.as_str());
                let err = chars_of(output.stderr.as_str());
                if holds(err.as_slice(), "No package found") || holds(
                    out.as_slice(),
                    "No package found",
                ) {
                    return Err(launch_not_installed(package));
                }
                if holds(err.as_slice(), "device not found") || holds(
                    err.as_slice(),
                    "device offline",
                ) {
                    return Err(launch_device_unavailable(self.serial.as_str()));
                }
                if holds(err.as_slice(), "permission denied") {
                    return Err(launch_permission_denied());
                }
                if err.len() > 0 {
                    Err(launch_failure(package, output.stderr.as_str()))
                } else if out.len() > 0 {
                    Err(launch_failure(package, output.stdout.as_str()))
                } else {
                    let mut v = chars_of("未知错误 (退出码: ");
                    push_text(&mut v, code_string(output.code).as_str());
                    push_text(&mut v, ")");
                    let detail = string_of(v.as_slice());
                    Err(launch_failure(package, detail.as_str()))
                }
            },
        }
    }

    /// What the outcome of a tap at a logical point means.
    pub fn check_tap(&self, x: u32, y: u32, result: &Result<CommandOutput, String>) -> (r: Result<
        (),
        AppError,
    >)
        ensures
            match *result {
                Ok(output) => if output.success {
                    r is Ok
                } else {
                    r matches Err(e) && is_adb_error(
                        e,
                        tap_failure_text(
                            x,
                            y,
                            self.physical(x, y).0,
                            self.physical(x, y).1,
                            output.stderr@,
                        ),
                    )
                },
                Err(cause) => r matches Err(e) && is_adb_error(
                    e,
                    tap_spawn_failure_text(x, y, cause@),
                ),
            },
    {
        match result {
            Err(cause) => Err(tap_spawn_failure(x, y, cause.as_str())),
            Ok(output) => {
                if output.success {
                    Ok(())
                } else {
                    let p = self.convert_to_physical_coords(x, y);
                    Err(tap_failure(x, y, p.0, p.1, output.stderr.as_str()))
                }
            },
        }
    }

    /// What the outcome of a swipe between two logical points means.
    pub fn check_swipe(
        &self,
        start_x: u32,
        start_y: u32,
        end_x: u32,
        end_y: u32,
        duration_ms: u32,
        result: &Result<CommandOutput, String>,
    ) -> (r: Result<(), AppError>)
        ensures
            match *result {
                Ok(output) => if output.success {
                    r is Ok
                } else {
                    r matches Err(e) && is_adb_error(
                        e,
                        swipe_failure_text(
                            start_x,
                            start_y,
                            self.physical(start_x, start_y).0,
                            self.physical(start_x, start_y).1,
                            end_x,
                            end_y,
                            self.physical(end_x, end_y).0,
                            self.physical(end_x, end_y).1,
                            duration_ms,
                            output.stderr@,
                        ),
                    )
                },
                Err(cause) => r matches Err(e) && is_adb_error(
                    e,
                    swipe_spawn_failure_text(start_x, start_y, end_x, end_y, duration_ms, cause@),
                ),
            },
    {
        match result {
            Err(cause) => Err(
                swipe_spawn_failure(start_x, start_y, end_x, end_y, duration_ms, cause.as_str()),
            ),
            Ok(output) => {
                if output.success {
                    Ok(())
                } else {
                    let a = self.convert_to_physical_coords(start_x, start_y);
                    let b = self.convert_to_physical_coords(end_x, end_y);
                    Err(
                        swipe_failure(
                            start_x,
                            start_y,
                            a.0,
                            a.1,
                            end_x,
                            end_y,
                            b.0,
                            b.1,
                            duration_ms,
                            output.stderr.as_str(),
                        ),
                    )
                }
            },
        }
    }
}

/// What the outcome of a text input means.
pub fn check_text(text: &str, result: &Result<CommandOutput, String>) -> (r: Result<(), AppError>)
    ensures
        match *result {
            Ok(output) => if output.success {
                r is Ok
            } else {
                r matches Err(e) && is_adb_error(e, text_failure_text(text@, output.stderr@))
            },
            Err(cause) => r matches Err(e) && is_adb_error(e, text_spawn_failure_text(text@, cause@)),
        },
{
    match result {
        Err(cause) => Err(text_spawn_failure(text, cause.as_str())),
        Ok(output) => {
            if output.success {
                Ok(())
            } else {
                Err(text_failure(text, output.stderr.as_str()))
            }
        },
    }
}

/// What the outcome of a key press means.
pub fn check_key(result: &Result<CommandOutput, String>) -> (r: Result<(), AppError>)
    ensures
        match *result {
            Ok(output) => if output.success {
                r is Ok
            } else {
                r matches Err(e) && is_adb_error(e, key_failure_text())
            },
            Err(cause) => r matches Err(e) && is_adb_error(e, key_spawn_failure_text(cause@)),
        },
{
    match result {
        Err(cause) => Err(key_spawn_failure(cause.as_str())),
        Ok(output) => {
            if output.success {
                Ok(())
            } else {
                Err(key_failure())
            }
        },
    }
}

/// What the outcome of a shell command means: its output, trimmed, or the
/// error that quotes what it printed as error.
pub fn check_shell(result: &Result<CommandOutput, String>) -> (r: Result<String, AppError>)
    ensures
        match *result {
            Ok(output) => if output.success {
                r matches Ok(text) && text@ == trimmed(output.stdout@)
            } else {
                r matches Err(e) && is_adb_error(e, shell_failure_text(output.stderr@))
            },
            Err(cause) => r matches Err(e) && is_adb_error(e, shell_spawn_failure_text(cause@)),
        },
{
    match result {
        Err(cause) => Err(shell_spawn_failure(cause.as_str())),
        Ok(output) => {
            if output.success {
                let s = chars_of(output.stdout.as_str());
                let (a, b) = trim_bounds(s.as_slice(), 0, s.len());
                proof {
                    assert(s@.subrange(0, s@.len() as int) =~= s@);
                }
                let inner = slice_chars(s.as_slice(), a, b);
                Ok(string_of(inner.as_slice()))
            } else {
                Err(shell_failure(output.stderr.as_str()))
            }
        },
    }
}

/// What the outcome of a screenshot means: the image in base64, or the
/// error. `image` is what the command wrote to its output.
pub fn check_screenshot(success: Result<bool, String>, image: &[u8]) -> (r: Result<String, AppError>)
    ensures
        match success {
            Ok(ok) => if ok {
                r matches Ok(text) && text@ == base64_text(image@)
            } else {
                r matches Err(e) && is_adb_error(e, screenshot_failure_text())
            },
            Err(cause) => r matches Err(e) && is_adb_error(
                e,
                screenshot_spawn_failure_text(cause@),
            ),
        },
{
    match success {
        Err(cause) => Err(screenshot_spawn_failure(cause.as_str())),
        Ok(ok) => {
            if ok {
                Ok(base64_encode(image))
            } else {
                Err(screenshot_failure())
            }
        },
    }
}

} // verus!
