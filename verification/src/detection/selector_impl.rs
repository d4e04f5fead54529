//! Reading the user's choice of devices to disable.

use vstd::prelude::*;

use crate::detection::{debug_path, path_debug, InputDevice};
use crate::path::{find_path, path_insert, path_key, path_keys, paths_equal, PathKey};
use crate::text::{
    chars_of, concat, decimal, digit_char, is_whitespace, owned, piece_views, push_decimal, split_chars, split_on,
    trim_end_index, trim_start_index, trim_vec, trimmed, views,
};

verus! {

/// Why a number could not be read, as `usize::from_str` reports it.
#[derive(Debug, Clone, Copy, PartialEq, Eq, Structural)]
pub enum IntErrorKind {
    Empty,
    InvalidDigit,
    PosOverflow,
}

/// Why the user's choice could not be taken.
#[derive(Debug, Clone, PartialEq, Eq)]
pub enum SelectionError {
    /// A number of the list could not be read.
    Parse(IntErrorKind),
    /// Devices are numbered from 1; 0 was given.
    ZeroIndex,
    /// A chosen device path is not among the available devices; the text is the path as
    /// `Debug` prints it.
    InvalidSelection(String),
}

pub ghost enum SelectionErrorView {
    Parse(IntErrorKind),
    ZeroIndex,
    InvalidSelection(Seq<char>),
}

impl View for SelectionError {
    type V = SelectionErrorView;

    open spec fn view(&self) -> SelectionErrorView {
        match self {
            SelectionError::Parse(k) => SelectionErrorView::Parse(*k),
            SelectionError::ZeroIndex => SelectionErrorView::ZeroIndex,
            SelectionError::InvalidSelection(p) => SelectionErrorView::InvalidSelection(p@),
        }
    }
}

/// The text shown for a selection error.
pub open spec fn selection_error_text(e: SelectionErrorView) -> Seq<char> {
    match e {
        SelectionErrorView::Parse(IntErrorKind::Empty) => "cannot parse integer from empty string"@,
        SelectionErrorView::Parse(IntErrorKind::InvalidDigit) => "invalid digit found in string"@,
        SelectionErrorView::Parse(IntErrorKind::PosOverflow) => "number too large to fit in target type"@,
        SelectionErrorView::ZeroIndex => "设备编号从 1 开始"@,
        SelectionErrorView::InvalidSelection(p) => "无效的设备选择: "@ + p,
    }
}

impl SelectionError {
    /// The text shown for this error.
    pub fn message(&self) -> (r: String)
        ensures
            r@ == selection_error_text(self@),
    {
        match self {
            SelectionError::Parse(IntErrorKind::Empty) => owned(
                "cannot parse integer from empty string",
            ),
            SelectionError::Parse(IntErrorKind::InvalidDigit) => owned(
                "invalid digit found in string",
            ),
            SelectionError::Parse(IntErrorKind::PosOverflow) => owned(
                "number too large to fit in target type",
            ),
            SelectionError::ZeroIndex => owned("设备编号从 1 开始"),
            SelectionError::InvalidSelection(p) => concat("无效的设备选择: ", p.as_str()),
        }
    }
}

/// Whether `c` is an ASCII decimal digit.
pub open spec fn is_digit(c: char) -> bool {
    '0' <= c && c <= '9'
}

/// The value of an ASCII decimal digit.
pub open spec fn digit_value(c: char) -> nat {
    ((c as u32) - ('0' as u32)) as nat
}

/// Reads the digits `d` after the value `acc` read so far, failing at the first
/// character that is not a digit, or as soon as the value passes `max`.
pub open spec fn parse_digits(d: Seq<char>, acc: nat, max: nat) -> Result<nat, IntErrorKind>
    decreases d.len(),
{
    if d.len() == 0 {
        Ok(acc)
    } else if !is_digit(d[0]) {
        Err(IntErrorKind::InvalidDigit)
    } else if acc * 10 + digit_value(d[0]) > max {
        Err(IntErrorKind::PosOverflow)
    } else {
        parse_digits(d.drop_first(), acc * 10 + digit_value(d[0]), max)
    }
}

/// What `usize::from_str` gives for `s`: an optional leading `+`, then decimal digits.
pub open spec fn parse_unsigned(s: Seq<char>) -> Result<nat, IntErrorKind> {
    if s.len() == 0 {
        Err(IntErrorKind::Empty)
    } else if s.len() == 1 && (s[0] == '+' || s[0] == '-') {
        Err(IntErrorKind::InvalidDigit)
    } else if s[0] == '+' {
        parse_digits(s.drop_first(), 0, usize::MAX as nat)
    } else {
        parse_digits(s, 0, usize::MAX as nat)
    }
}

/// The 0-based indices named by the pieces of a list: each piece is trimmed, empty
/// pieces are skipped, and the first piece that is no number, or is 0, is the error.
pub open spec fn parse_parts(parts: Seq<Seq<char>>) -> Result<Seq<nat>, SelectionErrorView>
    decreases parts.len(),
{
    if parts.len() == 0 {
        Ok(Seq::empty())
    } else {
        match parse_parts(parts.drop_last()) {
            Err(e) => Err(e),
            Ok(prev) => {
                let p = trimmed(parts.last());
                if p.len() == 0 {
                    Ok(prev)
                } else {
                    match parse_unsigned(p) {
                        Err(k) => Err(SelectionErrorView::Parse(k)),
                        Ok(n) => if n == 0 {
                            Err(SelectionErrorView::ZeroIndex)
                        } else {
                            Ok(prev.push((n - 1) as nat))
                        },
                    }
                }
            },
        }
    }
}

/// The 0-based indices named by a comma-separated list of 1-based device numbers.
pub open spec fn parse_indices_spec(input: Seq<char>) -> Result<Seq<nat>, SelectionErrorView> {
    parse_parts(split_on(input, ','))
}

/// Reads a number as `usize::from_str` does.
pub fn parse_usize(s: &Vec<char>) -> (r: Result<usize, IntErrorKind>)
    ensures
        match r {
            Ok(n) => parse_unsigned(s@) == Ok::<nat, IntErrorKind>(n as nat),
            Err(k) => parse_unsigned(s@) == Err::<nat, IntErrorKind>(k),
        },
        forall|k: nat|
            k <= usize::MAX && s@ == #[trigger] decimal(k) ==> r == Ok::<usize, IntErrorKind>(
                k as usize,
            ),
{
    proof {
        assert forall|k: nat| k <= usize::MAX && s@ == #[trigger] decimal(k) implies parse_unsigned(
            s@,
        ) == Ok::<nat, IntErrorKind>(k) by {
            lemma_parse_decimal(k);
        }
    }
    let n = s.len();
    if n == 0 {
        return Err(IntErrorKind::Empty);
    }
    if n == 1 && (s[0] == '+' || s[0] == '-') {
        return Err(IntErrorKind::InvalidDigit);
    }
    let start: usize = if s[0] == '+' {
        1
    } else {
        0
    };
    let ghost digits = s@.subrange(start as int, n as int);
    assert(s[0] == '+' ==> digits =~= s@.drop_first());
    assert(s[0] != '+' ==> digits =~= s@);
    let mut acc: usize = 0;
    let mut i: usize = start;
    assert(parse_unsigned(s@) == parse_digits(digits, 0, usize::MAX as nat));
    assert(digits == s@.subrange(i as int, n as int));
    while i < n
        invariant
            parse_unsigned(s@) == parse_digits(digits, 0, usize::MAX as nat),
            forall|k: nat|
                k <= usize::MAX && s@ == #[trigger] decimal(k) ==> parse_unsigned(s@) == Ok::<
                    nat,
                    IntErrorKind,
                >(k),
            start <= i <= n,
            n == s@.len(),
            digits == s@.subrange(start as int, n as int),
            parse_digits(digits, 0, usize::MAX as nat) == parse_digits(
                s@.subrange(i as int, n as int),
                acc as nat,
                usize::MAX as nat,
            ),
        decreases n - i,
    {
        let c = s[i];
        let ghost rest = s@.subrange(i as int, n as int);
        assert(rest[0] == c);
        assert(rest.drop_first() =~= s@.subrange(i + 1, n as int));
        if !('0' <= c && c <= '9') {
            assert(parse_digits(rest, acc as nat, usize::MAX as nat) == Err::<nat, IntErrorKind>(
                IntErrorKind::InvalidDigit,
            ));
            return Err(IntErrorKind::InvalidDigit);
        }
        let d: usize = ((c as u32) - ('0' as u32)) as usize;
        assert(d == digit_value(c));
        if acc > (usize::MAX - d) / 10 {
            assert(acc * 10 + d > usize::MAX) by (nonlinear_arith)
                requires
                    acc > (usize::MAX - d) / 10,
                    d <= 9,
            ;
            assert(parse_digits(rest, acc as nat, usize::MAX as nat) == Err::<nat, IntErrorKind>(
                IntErrorKind::PosOverflow,
            ));
            return Err(IntErrorKind::PosOverflow);
        }
        assert(acc * 10 + d <= usize::MAX) by (nonlinear_arith)
            requires
                acc <= (usize::MAX - d) / 10,
                d <= 9,
        ;
        acc = acc * 10 + d;
        i = i + 1;
    }
    assert(s@.subrange(n as int, n as int) =~= Seq::<char>::empty());
    Ok(acc)
}

/// Reading one more character after digits that read as `v`: a digit `c` gives
/// `10 * v` plus the value of `c` while that stays within `max`, and too large a value
/// or any other character is the error.
pub proof fn lemma_parse_digits_push(d: Seq<char>, c: char, acc: nat, max: nat, v: nat)
    requires
        parse_digits(d, acc, max) == Ok::<nat, IntErrorKind>(v),
    ensures
        parse_digits(d.push(c), acc, max) == (if !is_digit(c) {
            Err::<nat, IntErrorKind>(IntErrorKind::InvalidDigit)
        } else if v * 10 + digit_value(c) > max {
            Err(IntErrorKind::PosOverflow)
        } else {
            Ok(v * 10 + digit_value(c))
        }),
    decreases d.len(),
{
    if d.len() == 0 {
        assert(v == acc);
        assert(d.push(c).drop_first() =~= Seq::<char>::empty());
        assert(d.push(c)[0] == c);
        assert(parse_digits(Seq::<char>::empty(), acc * 10 + digit_value(c), max) == Ok::<nat, IntErrorKind>(acc * 10 + digit_value(c)));
    } else {
        assert(d.push(c)[0] == d[0]);
        assert(d.push(c).drop_first() =~= d.drop_first().push(c));
        lemma_parse_digits_push(d.drop_first(), c, acc * 10 + digit_value(d[0]), max, v);
    }
}

/// Every character of a decimal representation is a digit, of the value it stands for.
proof fn lemma_decimal_digits(n: nat)
    ensures
        decimal(n).len() >= 1,
        forall|i: int| 0 <= i < decimal(n).len() ==> is_digit(#[trigger] decimal(n)[i]),
    decreases n,
{
    if n >= 10 {
        lemma_decimal_digits(n / 10);
        lemma_digit_char((n % 10) as nat);
        let s = decimal(n);
        assert forall|i: int| 0 <= i < s.len() implies is_digit(#[trigger] s[i]) by {
            if i < s.len() - 1 {
                assert(s[i] == decimal(n / 10)[i]);
            }
        }
    } else {
        lemma_digit_char(n);
    }
}

/// The digit for `d` below ten is a digit of value `d`.
proof fn lemma_digit_char(d: nat)
    requires
        d < 10,
    ensures
        is_digit(digit_char(d)),
        digit_value(digit_char(d)) == d,
{
}

/// Every number that fits in `usize` reads back from its decimal representation: the
/// digits are read in base ten.
pub proof fn lemma_parse_decimal(n: nat)
    requires
        n <= usize::MAX,
    ensures
        parse_unsigned(decimal(n)) == Ok::<nat, IntErrorKind>(n),
    decreases n,
{
    lemma_decimal_digits(n);
    lemma_parse_decimal_digits(n);
    let s = decimal(n);
    assert(is_digit(s[0]));
}

/// The digits of the decimal representation of `n` read as `n`.
proof fn lemma_parse_decimal_digits(n: nat)
    requires
        n <= usize::MAX,
    ensures
        parse_digits(decimal(n), 0, usize::MAX as nat) == Ok::<nat, IntErrorKind>(n),
    decreases n,
{
    if n < 10 {
        lemma_digit_char(n);
        let s = decimal(n);
        assert(s == seq![digit_char(n)]);
        assert(s.drop_first() =~= Seq::<char>::empty());
        assert(s[0] == digit_char(n));
        assert(0 * 10 + digit_value(s[0]) == n);
        assert(parse_digits(Seq::<char>::empty(), n, usize::MAX as nat) == Ok::<nat, IntErrorKind>(n));
    } else {
        lemma_parse_decimal_digits(n / 10);
        lemma_digit_char((n % 10) as nat);
        lemma_parse_digits_push(decimal(n / 10), digit_char((n % 10) as nat), 0, usize::MAX as nat, n / 10);
        assert((n / 10) * 10 + n % 10 == n);
        assert(decimal(n) == decimal(n / 10).push(digit_char((n % 10) as nat)));
    }
}

/// A text without the separator is one piece.
proof fn lemma_split_without_sep(s: Seq<char>, sep: char)
    requires
        forall|i: int| 0 <= i < s.len() ==> s[i] != sep,
    ensures
        split_on(s, sep) == seq![s],
    decreases s.len(),
{
    if s.len() == 0 {
        assert(s =~= Seq::<char>::empty());
    } else {
        let init = s.drop_last();
        assert forall|i: int| 0 <= i < init.len() implies init[i] != sep by {
            assert(init[i] == s[i]);
        }
        lemma_split_without_sep(init, sep);
        assert(init.push(s.last()) =~= s);
        assert(seq![init].update(0, init.push(s.last())) =~= seq![s]);
    }
}

/// Typing the decimal number of a listed device, from 1 on, selects that device alone:
/// its 0-based index is one less than the number.
pub proof fn lemma_single_number_selects_its_index(n: nat)
    requires
        1 <= n <= usize::MAX,
    ensures
        parse_indices_spec(decimal(n)) == Ok::<Seq<nat>, SelectionErrorView>(seq![(n - 1) as nat]),
{
    let d = decimal(n);
    lemma_decimal_digits(n);
    lemma_parse_decimal(n);
    assert forall|i: int| 0 <= i < d.len() implies d[i] != ',' by {
        assert(is_digit(d[i]));
    }
    lemma_split_without_sep(d, ',');
    let parts = split_on(d, ',');
    assert(is_digit(d[0]) && is_digit(d.last()));
    assert(!is_whitespace(d[0]));
    assert(!is_whitespace(d.last()));
    assert(trim_start_index(d) == 0);
    assert(trim_end_index(d) == d.len());
    assert(d.subrange(0, d.len() as int) =~= d);
    assert(trimmed(d) == d);
    assert(parts.drop_last() =~= Seq::<Seq<char>>::empty());
    assert(parse_parts(parts.drop_last()) == Ok::<Seq<nat>, SelectionErrorView>(Seq::empty()));
    assert(parts.last() == d);
    assert(Seq::<nat>::empty().push((n - 1) as nat) =~= seq![(n - 1) as nat]);
}

/// Once the first pieces of a list give an error, the whole list gives it.
proof fn lemma_parse_parts_error_extends(parts: Seq<Seq<char>>, m: int)
    requires
        0 <= m <= parts.len(),
        parse_parts(parts.subrange(0, m)) is Err,
    ensures
        parse_parts(parts) == parse_parts(parts.subrange(0, m)),
    decreases parts.len() - m,
{
    if m < parts.len() {
        let next = parts.subrange(0, m + 1);
        assert(next.drop_last() =~= parts.subrange(0, m));
        lemma_parse_parts_error_extends(parts, m + 1);
    } else {
        assert(parts.subrange(0, m) =~= parts);
    }
}

/// Reads a comma-separated list of 1-based device numbers and returns the 0-based
/// indices, skipping blank entries.
pub fn parse_indices(input: &str) -> (r: Result<Vec<usize>, SelectionError>)
    ensures
        match r {
            Ok(v) => parse_indices_spec(input@) == Ok::<Seq<nat>, SelectionErrorView>(
                v@.map_values(|x: usize| x as nat),
            ),
            Err(e) => parse_indices_spec(input@) == Err::<Seq<nat>, SelectionErrorView>(e@),
        },
{
    let chars = chars_of(input);
    let pieces = split_chars(&chars, ',');
    let ghost parts = split_on(input@, ',');
    let mut indices: Vec<usize> = Vec::new();
    let mut j: usize = 0;
    assert(parts.subrange(0, 0) =~= Seq::<Seq<char>>::empty());
    assert(indices@.map_values(|x: usize| x as nat) =~= Seq::<nat>::empty());
    while j < pieces.len()
        invariant
            j <= pieces.len(),
            piece_views(pieces@) == parts,
            parts == split_on(input@, ','),
            parse_parts(parts.subrange(0, j as int)) == Ok::<Seq<nat>, SelectionErrorView>(
                indices@.map_values(|x: usize| x as nat),
            ),
        decreases pieces.len() - j,
    {
        assert(parts.subrange(0, j as int).push(pieces@[j as int]@) =~= parts.subrange(
            0,
            j + 1,
        ));
        match take_piece(&pieces[j], &mut indices, Ghost(parts.subrange(0, j as int))) {
            Ok(()) => {},
            Err(e) => {
                proof {
                    lemma_parse_parts_error_extends(parts, j + 1);
                }
                return Err(e);
            },
        }
        j = j + 1;
    }
    assert(parts.subrange(0, pieces.len() as int) =~= parts);
    Ok(indices)
}

/// Reads one piece of the list after the pieces `before`, whose indices `indices` holds.
fn take_piece(piece: &Vec<char>, indices: &mut Vec<usize>, Ghost(before): Ghost<Seq<Seq<char>>>) -> (r:
    Result<(), SelectionError>)
    requires
        parse_parts(before) == Ok::<Seq<nat>, SelectionErrorView>(
            old(indices)@.map_values(|x: usize| x as nat),
        ),
    ensures
        match r {
            Ok(()) => parse_parts(before.push(piece@)) == Ok::<Seq<nat>, SelectionErrorView>(
                final(indices)@.map_values(|x: usize| x as nat),
            ),
            Err(e) => parse_parts(before.push(piece@)) == Err::<Seq<nat>, SelectionErrorView>(e@),
        },
{
    assert(before.push(piece@).drop_last() =~= before);
    let part = trim_vec(piece);
    if part.len() == 0 {
        return Ok(());
    }
    match parse_usize(&part) {
        Err(k) => Err(SelectionError::Parse(k)),
        Ok(idx) => {
            if idx == 0 {
                return Err(SelectionError::ZeroIndex);
            }
            let ghost old_view = indices@.map_values(|x: usize| x as nat);
            indices.push(idx - 1);
            assert(indices@.map_values(|x: usize| x as nat) =~= old_view.push((idx - 1) as nat));
            Ok(())
        },
    }
}

/// Reads the user's choice of devices to disable: `none` picks none, `all` picks the
/// devices active during detection, anything else is a list of 1-based device numbers.
pub struct CliDeviceSelector;

/// What the paths the user picks with `input` compare by.
pub open spec fn picked_paths(input: Seq<char>, all: Seq<InputDevice>, active: Seq<String>) -> Result<
    Set<PathKey>,
    SelectionErrorView,
> {
    let t = trimmed(input);
    if t == "none"@ {
        Ok(Set::empty())
    } else if t == "all"@ {
        Ok(path_keys(active).to_set())
    } else {
        match parse_indices_spec(t) {
            Err(e) => Err(e),
            Ok(idx) => Ok(picked_upto(idx, all, idx.len() as int)),
        }
    }
}

/// What the paths of a list of devices compare by.
pub open spec fn available_paths(available: Seq<InputDevice>) -> Set<PathKey> {
    Set::new(|q: PathKey| exists|k: int| 0 <= k < available.len() && path_key(available[k].path@) == q)
}

fn device_path_index(available: &Vec<InputDevice>, p: &String) -> (r: bool)
    ensures
        r == available_paths(available@).contains(path_key(p@)),
{
    let mut k: usize = 0;
    while k < available.len()
        invariant
            k <= available.len(),
            forall|j: int| 0 <= j < k ==> path_key(available@[j].path@) != path_key(p@),
        decreases available.len() - k,
    {
        if paths_equal(available[k].path.as_str(), p.as_str()) {
            return true;
        }
        k = k + 1;
    }
    false
}

/// The paths of `v`, each once as paths compare, the first of equal ones kept.
fn distinct_paths(v: &Vec<String>) -> (r: Vec<String>)
    ensures
        path_keys(r@).no_duplicates(),
        path_keys(r@).to_set() == path_keys(v@).to_set(),
{
    let mut r: Vec<String> = Vec::new();
    let mut i: usize = 0;
    assert(path_keys(r@) =~= Seq::<PathKey>::empty());
    assert(path_keys(v@.subrange(0, 0)) =~= Seq::<PathKey>::empty());
    while i < v.len()
        invariant
            i <= v.len(),
            path_keys(r@).no_duplicates(),
            path_keys(r@).to_set() == path_keys(v@.subrange(0, i as int)).to_set(),
        decreases v.len() - i,
    {
        path_insert(&mut r, v[i].as_str());
        proof {
            let pre = path_keys(v@.subrange(0, i as int));
            assert(path_keys(v@.subrange(0, i + 1)) =~= pre.push(path_key(v@[i as int]@)));
            pre.lemma_push_to_set_commute(path_key(v@[i as int]@));
        }
        i = i + 1;
    }
    assert(v@.subrange(0, v.len() as int) =~= v@);
    r
}

/// What the paths of the devices named by the first `n` indices compare by.
pub open spec fn picked_upto(idx: Seq<nat>, all: Seq<InputDevice>, n: int) -> Set<PathKey> {
    Set::new(
        |q: PathKey|
            exists|k: int|
                0 <= k < n && idx[k] < all.len() && path_key(all[idx[k] as int].path@) == q,
    )
}

proof fn lemma_picked_step(idx: Seq<nat>, all: Seq<InputDevice>, i: int)
    requires
        0 <= i < idx.len(),
    ensures
        picked_upto(idx, all, i + 1) == (if idx[i] < all.len() {
            picked_upto(idx, all, i).insert(path_key(all[idx[i] as int].path@))
        } else {
            picked_upto(idx, all, i)
        }),
{
    let rhs = if idx[i] < all.len() {
        picked_upto(idx, all, i).insert(path_key(all[idx[i] as int].path@))
    } else {
        picked_upto(idx, all, i)
    };
    assert forall|q: PathKey| picked_upto(idx, all, i + 1).contains(q) <==> rhs.contains(q) by {
        if picked_upto(idx, all, i + 1).contains(q) {
            let k = choose|k: int|
                0 <= k < i + 1 && idx[k] < all.len() && path_key(all[idx[k] as int].path@) == q;
            if k < i {
                assert(picked_upto(idx, all, i).contains(q));
            }
        }
        if picked_upto(idx, all, i).contains(q) {
            let k = choose|k: int|
                0 <= k < i && idx[k] < all.len() && path_key(all[idx[k] as int].path@) == q;
            assert(0 <= k < i + 1);
        }
        if idx[i] < all.len() && q == path_key(all[idx[i] as int].path@) {
            assert(0 <= i < i + 1);
        }
    }
    assert(picked_upto(idx, all, i + 1) =~= rhs);
}


/// The index of the first device of `all` whose path compares equal to `q`.
#[verifier::opaque]
pub open spec fn first_with_path(all: Seq<InputDevice>, q: PathKey) -> int {
    choose|j: int|
        0 <= j < all.len() && path_key(all[j].path@) == q && forall|k: int|
            0 <= k < j ==> path_key(#[trigger] all[k].path@) != q
}

proof fn lemma_first_with_path(all: Seq<InputDevice>, q: PathKey, j: int)
    requires
        0 <= j < all.len(),
        path_key(all[j].path@) == q,
        forall|k: int| 0 <= k < j ==> path_key(#[trigger] all[k].path@) != q,
    ensures
        first_with_path(all, q) == j,
{
    reveal(first_with_path);
    let c = first_with_path(all, q);
    assert(0 <= c < all.len() && path_key(all[c].path@) == q && forall|k: int|
        0 <= k < c ==> path_key(#[trigger] all[k].path@) != q);
    if c < j {
        assert(path_key(all[c].path@) != q);
    }
    if c > j {
        assert(path_key(all[j].path@) != q);
    }
}

fn first_device_with(all: &Vec<InputDevice>, p: &str) -> (r: usize)
    requires
        exists|j: int| 0 <= j < all.len() && path_key(#[trigger] all@[j].path@) == path_key(p@),
    ensures
        r < all.len(),
        r == first_with_path(all@, path_key(p@)),
{
    let mut k: usize = 0;
    while k < all.len()
        invariant
            k <= all.len(),
            forall|j: int| 0 <= j < k ==> path_key(#[trigger] all@[j].path@) != path_key(p@),
        decreases all.len() - k,
    {
        if paths_equal(all[k].path.as_str(), p) {
            proof {
                lemma_first_with_path(all@, path_key(p@), k as int);
            }
            return k;
        }
        k = k + 1;
    }
    proof {
        let j = choose|j: int| 0 <= j < all.len() && path_key(#[trigger] all@[j].path@) == path_key(p@);
        assert(path_key(all@[j].path@) != path_key(p@));
    }
    0
}

/// The menu lines of the devices among the first `n` that were active, numbered from 1.
pub open spec fn active_upto(all: Seq<InputDevice>, active: Set<PathKey>, n: nat) -> Seq<Seq<char>>
    decreases n,
{
    if n == 0 {
        Seq::empty()
    } else {
        active_upto(all, active, (n - 1) as nat) + if active.contains(path_key(all[n - 1].path@)) {
            seq!["  ✓ ["@ + decimal(n) + "] "@ + all[n - 1].name@]
        } else {
            Seq::empty()
        }
    }
}

/// The menu lines of the devices among the first `n` that were not active, each numbered
/// by the first device with an equal path.
pub open spec fn inactive_upto(all: Seq<InputDevice>, active: Set<PathKey>, n: nat) -> Seq<Seq<char>>
    decreases n,
{
    if n == 0 {
        Seq::empty()
    } else {
        inactive_upto(all, active, (n - 1) as nat) + if !active.contains(path_key(all[n - 1].path@)) {
            seq![
                "    ["@ + decimal((first_with_path(all, path_key(all[n - 1].path@)) + 1) as nat) + "] "@
                    + all[n - 1].name@,
            ]
        } else {
            Seq::empty()
        }
    }
}

/// The rule printed above and below the menu title.
pub open spec fn menu_rule() -> Seq<char> {
    "━━━━━━━━━━━━━━━━━━━━━━━━━━━━━━━━━━━━━━━━"@
}

/// The menu shown before the user chooses: a title; the active devices, if any were
/// active; the inactive ones, if any; and how to answer.
pub open spec fn menu_lines(all: Seq<InputDevice>, active: Seq<String>) -> Seq<Seq<char>> {
    let keys = path_keys(active).to_set();
    let inactive = inactive_upto(all, keys, all.len());
    seq!["\n"@ + menu_rule(), "  设备选择"@, menu_rule() + "\n"@] + (if active.len() > 0 {
        seq!["检测期间活跃的设备:\n"@] + active_upto(all, keys, all.len()) + seq![Seq::empty()]
    } else {
        Seq::empty()
    }) + (if inactive.len() > 0 {
        seq!["未活跃的设备:\n"@] + inactive + seq![Seq::empty()]
    } else {
        Seq::empty()
    }) + seq![
        "要禁用哪些设备？（可多选）"@,
        "  输入编号，如: 1,3"@,
        "  输入 'all' 禁用所有活跃设备"@,
        "  输入 'none' 跳过\n"@,
    ]
}

/// Whether `p` compares equal to one of the paths of `v`.
fn holds_path(v: &Vec<String>, p: &str) -> (r: bool)
    ensures
        r == path_keys(v@).to_set().contains(path_key(p@)),
{
    match find_path(v, p) {
        Some(i) => {
            assert(path_keys(v@)[i as int] == path_key(p@));
            true
        },
        None => false,
    }
}

fn active_entries(all: &Vec<InputDevice>, active: &Vec<String>) -> (lines: Vec<String>)
    ensures
        views(lines@) == active_upto(all@, path_keys(active@).to_set(), all@.len()),
{
    let ghost keys = path_keys(active@).to_set();
    let mut lines: Vec<String> = Vec::new();
    let mut i: usize = 0;
    assert(views(lines@) =~= Seq::<Seq<char>>::empty());
    while i < all.len()
        invariant
            i <= all.len(),
            keys == path_keys(active@).to_set(),
            views(lines@) == active_upto(all@, keys, i as nat),
        decreases all.len() - i,
    {
        let d = &all[i];
        let ghost before = views(lines@);
        if holds_path(active, d.path.as_str()) {
            let mut line = owned("  ✓ [");
            push_decimal(&mut line, (i + 1) as u64);
            line.push_str("] ");
            line.push_str(d.name.as_str());
            lines.push(line);
            assert(views(lines@) =~= before + seq!["  ✓ ["@ + decimal((i + 1) as nat) + "] "@ + d.name@]);
        } else {
            assert(before + Seq::<Seq<char>>::empty() =~= before);
        }
        i = i + 1;
    }
    lines
}

fn inactive_entries(all: &Vec<InputDevice>, active: &Vec<String>) -> (lines: Vec<String>)
    ensures
        views(lines@) == inactive_upto(all@, path_keys(active@).to_set(), all@.len()),
{
    let ghost keys = path_keys(active@).to_set();
    let mut lines: Vec<String> = Vec::new();
    let mut i: usize = 0;
    assert(views(lines@) =~= Seq::<Seq<char>>::empty());
    while i < all.len()
        invariant
            i <= all.len(),
            keys == path_keys(active@).to_set(),
            views(lines@) == inactive_upto(all@, keys, i as nat),
        decreases all.len() - i,
    {
        let d = &all[i];
        let ghost before = views(lines@);
        if !holds_path(active, d.path.as_str()) {
            assert(path_key(all@[i as int].path@) == path_key(d.path@));
            let idx = first_device_with(all, d.path.as_str());
            let mut line = owned("    [");
            push_decimal(&mut line, (idx + 1) as u64);
            line.push_str("] ");
            line.push_str(d.name.as_str());
            lines.push(line);
            assert(views(lines@) =~= before + seq![
                "    ["@ + decimal((first_with_path(all@, path_key(d.path@)) + 1) as nat) + "] "@ + d.name@,
            ]);
        } else {
            assert(before + Seq::<Seq<char>>::empty() =~= before);
        }
        i = i + 1;
    }
    lines
}

impl CliDeviceSelector {
    /// The lines shown before the user chooses which devices to disable: `all_devices` are
    /// the numbered devices, `active` the paths seen active during detection.
    pub fn selection_menu(&self, all_devices: &Vec<InputDevice>, active: &Vec<String>) -> (lines: Vec<
        String,
    >)
        ensures
            views(lines@) == menu_lines(all_devices@, active@),
    {
        let mut lines: Vec<String> = Vec::new();
        lines.push(owned("\n━━━━━━━━━━━━━━━━━━━━━━━━━━━━━━━━━━━━━━━━"));
        lines.push(owned("  设备选择"));
        lines.push(owned("━━━━━━━━━━━━━━━━━━━━━━━━━━━━━━━━━━━━━━━━\n"));
        proof {
            reveal_strlit("\n━━━━━━━━━━━━━━━━━━━━━━━━━━━━━━━━━━━━━━━━");
            reveal_strlit("━━━━━━━━━━━━━━━━━━━━━━━━━━━━━━━━━━━━━━━━\n");
            reveal_strlit("━━━━━━━━━━━━━━━━━━━━━━━━━━━━━━━━━━━━━━━━");
            reveal_strlit("\n");
            assert("\n━━━━━━━━━━━━━━━━━━━━━━━━━━━━━━━━━━━━━━━━"@ =~= "\n"@ + menu_rule());
            assert("━━━━━━━━━━━━━━━━━━━━━━━━━━━━━━━━━━━━━━━━\n"@ =~= menu_rule() + "\n"@);
        }
        let ghost head = views(lines@);
        if active.len() > 0 {
            lines.push(owned("检测期间活跃的设备:\n"));
            let mut act = active_entries(all_devices, active);
            lines.append(&mut act);
            lines.push(String::new());
        }
        let ghost with_active = views(lines@);
        let mut inact = inactive_entries(all_devices, active);
        if inact.len() > 0 {
            lines.push(owned("未活跃的设备:\n"));
            lines.append(&mut inact);
            lines.push(String::new());
        }
        let ghost with_inactive = views(lines@);
        lines.push(owned("要禁用哪些设备？（可多选）"));
        lines.push(owned("  输入编号，如: 1,3"));
        lines.push(owned("  输入 'all' 禁用所有活跃设备"));
        lines.push(owned("  输入 'none' 跳过\n"));
        assert(views(lines@) =~= menu_lines(all_devices@, active@));
        lines
    }

    /// The devices picked by the answer `input`, each once as paths compare. `all_devices`
    /// is the list the numbers refer to; `active` are the devices seen active during
    /// detection.
    pub fn selection_from_input(
        &self,
        input: &str,
        all_devices: &Vec<InputDevice>,
        active: &Vec<String>,
    ) -> (r: Result<Vec<String>, SelectionError>)
        ensures
            match r {
                Ok(v) => path_keys(v@).no_duplicates() && picked_paths(input@, all_devices@, active@)
                    == Ok::<Set<PathKey>, SelectionErrorView>(path_keys(v@).to_set()),
                Err(e) => picked_paths(input@, all_devices@, active@) == Err::<
                    Set<PathKey>,
                    SelectionErrorView,
                >(e@),
            },
    {
        let t = crate::text::string_of(&crate::text::trim_chars(input));
        if crate::text::str_eq(t.as_str(), "none") {
            let r: Vec<String> = Vec::new();
            assert(path_keys(r@).to_set() =~= Set::<PathKey>::empty());
            return Ok(r);
        }
        if crate::text::str_eq(t.as_str(), "all") {
            return Ok(distinct_paths(active));
        }
        let indices = parse_indices(t.as_str())?;
        let ghost idx = indices@.map_values(|x: usize| x as nat);
        let mut picked: Vec<String> = Vec::new();
        let mut i: usize = 0;
        assert(path_keys(picked@) =~= Seq::<PathKey>::empty());
        assert(path_keys(picked@).to_set() =~= picked_upto(idx, all_devices@, 0));
        while i < indices.len()
            invariant
                i <= indices.len(),
                idx == indices@.map_values(|x: usize| x as nat),
                path_keys(picked@).no_duplicates(),
                path_keys(picked@).to_set() == picked_upto(idx, all_devices@, i as int),
            decreases indices.len() - i,
        {
            let ix = indices[i];
            proof {
                lemma_picked_step(idx, all_devices@, i as int);
            }
            if ix < all_devices.len() {
                path_insert(&mut picked, all_devices[ix].path.as_str());
            }
            i = i + 1;
        }
        Ok(picked)
    }

    /// Checks that every chosen path belongs to an available device, as paths compare;
    /// the first one that does not gives the error.
    pub fn validate_selection(&self, selection: &Vec<String>, available: &Vec<InputDevice>) -> (r:
        Result<(), SelectionError>)
        ensures
            match r {
                Ok(()) => forall|i: int|
                    0 <= i < selection.len() ==> available_paths(available@).contains(
                        path_key(#[trigger] selection@[i]@),
                    ),
                Err(e) => exists|i: int|
                    0 <= i < selection.len() && !available_paths(available@).contains(
                        path_key(selection@[i]@),
                    ) && (forall|j: int|
                        0 <= j < i ==> available_paths(available@).contains(
                            path_key(#[trigger] selection@[j]@),
                        )) && e@ == SelectionErrorView::InvalidSelection(
                        path_debug(selection@[i]@),
                    ),
            },
    {
        let mut i: usize = 0;
        while i < selection.len()
            invariant
                i <= selection.len(),
                forall|j: int|
                    0 <= j < i ==> available_paths(available@).contains(
                        path_key(#[trigger] selection@[j]@),
                    ),
            decreases selection.len() - i,
        {
            if !device_path_index(available, &selection[i]) {
                return Err(SelectionError::InvalidSelection(debug_path(selection[i].as_str())));
            }
            i = i + 1;
        }
        Ok(())
    }
}

} // verus!
