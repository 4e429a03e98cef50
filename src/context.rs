use vstd::prelude::*;

verus! {

/// A byte that starts a codepoint: ASCII or the lead byte of a multi-byte
/// sequence, i.e. anything but a continuation byte `0b10xx_xxxx`.
pub open spec fn is_boundary_byte(b: u8) -> bool {
    b < 128 || b >= 192
}

/// Whether `byte` may start a codepoint (it is not a UTF-8 continuation byte).
pub fn is_codepoint_boundary(byte: u8) -> (r: bool)
    ensures
        r == is_boundary_byte(byte),
{
    byte < 0x80 || byte >= 0xc0
}

/// The first boundary byte among the `n` positions from `i` upwards that lie
/// inside `b`.
pub open spec fn scan_up(b: Seq<u8>, i: int, n: nat) -> Option<int>
    decreases n,
{
    if n == 0 || i < 0 || i >= b.len() {
        None
    } else if is_boundary_byte(b[i]) {
        Some(i)
    } else {
        scan_up(b, i + 1, (n - 1) as nat)
    }
}

/// The first boundary byte among the `n` positions from `i` downwards that lie
/// inside `b`.
pub open spec fn scan_down(b: Seq<u8>, i: int, n: nat) -> Option<int>
    decreases n,
{
    if n == 0 || i < 0 || i >= b.len() {
        None
    } else if is_boundary_byte(b[i]) {
        Some(i)
    } else {
        scan_down(b, i - 1, (n - 1) as nat)
    }
}

/// What `scan_up` finds lies in the buffer, at most `n - 1` bytes above `i`, and
/// is a boundary.
pub proof fn lemma_scan_up_found(b: Seq<u8>, i: int, n: nat)
    ensures
        scan_up(b, i, n) matches Some(j) ==> i <= j < b.len() && j < i + n && is_boundary_byte(b[j]),
    decreases n,
{
    if n > 0 && 0 <= i < b.len() && !is_boundary_byte(b[i]) {
        lemma_scan_up_found(b, i + 1, (n - 1) as nat);
    }
}

/// What `scan_down` finds lies in the buffer, at most `n - 1` bytes below `i`,
/// and is a boundary.
pub proof fn lemma_scan_down_found(b: Seq<u8>, i: int, n: nat)
    ensures
        scan_down(b, i, n) matches Some(j) ==> 0 <= j <= i && i - n < j && is_boundary_byte(b[j]),
    decreases n,
{
    if n > 0 && 0 <= i < b.len() && !is_boundary_byte(b[i]) {
        lemma_scan_down_found(b, i - 1, (n - 1) as nat);
    }
}

/// The window before boundary adjustment: everything when it fits the budget,
/// else `max` bytes centred on `err`, pushed back inside the buffer.
pub open spec fn window_unadjusted_spec(len: int, err: int, max: int) -> (int, int) {
    let half = max / 2;
    if len <= max {
        (0, len)
    } else if err + half >= len {
        (len - max, len)
    } else if err < half {
        (0, max)
    } else {
        (err - half, err + half)
    }
}

/// A start index moved onto a boundary: upwards first (shrinking), then
/// downwards (growing), else left where it was.
pub open spec fn adjust_start(b: Seq<u8>, s: int) -> int {
    if s == 0 || s >= b.len() || is_boundary_byte(b[s]) {
        s
    } else {
        match scan_up(b, s, 4) {
            Some(j) => j,
            None => match scan_down(b, s, 4) {
                Some(j) => j,
                None => s,
            },
        }
    }
}

/// An end index moved onto a boundary: downwards first (shrinking), then
/// upwards (growing), else left where it was.
pub open spec fn adjust_end(b: Seq<u8>, e: int) -> int {
    if e >= b.len() || is_boundary_byte(b[e]) {
        e
    } else {
        match scan_down(b, e, 4) {
            Some(j) => j,
            None => match scan_up(b, e, 4) {
                Some(j) => j,
                None => e,
            },
        }
    }
}

/// The window shown for `b` with the error at `err` and a budget of `max`
/// bytes. Where both endpoints were moved towards each other past one another
/// (only with budgets under six bytes) the window is empty at its start.
pub open spec fn window_spec(b: Seq<u8>, err: int, max: int) -> (int, int) {
    let (s0, e0) = window_unadjusted_spec(b.len() as int, err, max);
    let s = adjust_start(b, s0);
    let e = adjust_end(b, e0);
    if e < s {
        (s, s)
    } else {
        (s, e)
    }
}

/// The characters of `b` decoded as UTF-8, each invalid sequence replaced by
/// U+FFFD REPLACEMENT CHARACTER.
pub uninterp spec fn lossy_utf8(b: Seq<u8>) -> Seq<char>;

/// The characters of `s` as a quoted string literal, the way `{:?}` writes it.
pub uninterp spec fn debug_quoted(s: Seq<char>) -> Seq<char>;

/// The decimal digit `d`.
pub open spec fn digit_char(d: nat) -> char {
    seq!['0', '1', '2', '3', '4', '5', '6', '7', '8', '9'][d as int]
}

/// `n` in base ten, without sign or leading zeros.
pub open spec fn decimal(n: nat) -> Seq<char>
    decreases n,
{
    if n < 10 {
        seq![digit_char(n)]
    } else {
        decimal(n / 10) + seq![digit_char(n % 10)]
    }
}

/// Relies on `String::from_utf8_lossy`: the bytes decoded, invalid sequences
/// replaced; the result depends on the bytes alone.
#[verifier::external_body]
fn decode_lossy(b: &[u8]) -> (r: String)
    ensures
        r@ == lossy_utf8(b@),
{
    String::from_utf8_lossy(b).into_owned()
}

/// Relies on `<str as Debug>::fmt`: the text quoted and escaped as a string
/// literal; the result depends on the characters alone.
#[verifier::external_body]
fn quote_debug(s: &str) -> (r: String)
    ensures
        r@ == debug_quoted(s@),
{
    format!("{:?}", s)
}

/// Relies on `<usize as Display>::fmt`: an unsigned integer in base ten.
#[verifier::external_body]
fn usize_decimal(n: usize) -> (r: String)
    ensures
        r@ == decimal(n as nat),
{
    n.to_string()
}

/// How an elided run of `n` bytes is written.
pub open spec fn byte_count_text(n: nat) -> Seq<char> {
    if n == 1 {
        "[1 byte]"@
    } else {
        "["@ + decimal(n) + " bytes]"@
    }
}

/// A number of bytes left out of an excerpt.
pub struct ByteCount(pub usize);

impl ByteCount {
    /// `[1 byte]` for one byte, `[<n> bytes]` for any other count.
    pub fn to_string(&self) -> (r: String)
        ensures
            r@ == byte_count_text(self.0 as nat),
    {
        if self.0 == 1 {
            String::from_str("[1 byte]")
        } else {
            let mut r = String::from_str("[");
            let digits = usize_decimal(self.0);
            r.append(digits.as_str());
            r.append(" bytes]");
            r
        }
    }
}

/// An excerpt framed by the counts of the bytes elided before and after it; a
/// count of zero is left out.
pub open spec fn framed(before: nat, quoted: Seq<char>, after: nat) -> Seq<char> {
    let head = if before > 0 {
        byte_count_text(before) + " "@
    } else {
        Seq::empty()
    };
    let tail = if after > 0 {
        " "@ + byte_count_text(after)
    } else {
        Seq::empty()
    };
    head + quoted + tail
}

/// Puts `quoted` between the counts of the bytes elided before and after it.
pub fn frame_excerpt(before: usize, quoted: &str, after: usize) -> (r: String)
    ensures
        r@ == framed(before as nat, quoted@, after as nat),
{
    let mut r = String::new();
    if before != 0 {
        let count = ByteCount(before).to_string();
        r.append(count.as_str());
        r.append(" ");
    }
    r.append(quoted);
    if after != 0 {
        let count = ByteCount(after).to_string();
        r.append(" ");
        r.append(count.as_str());
    }
    r
}

/// The excerpt of `b` shown for an error at `err` with a budget of `max` bytes.
pub open spec fn rendered(b: Seq<u8>, err: int, max: int) -> Seq<char> {
    if b.len() <= max {
        debug_quoted(lossy_utf8(b))
    } else {
        let (s, e) = window_spec(b, err, max);
        framed(s as nat, debug_quoted(lossy_utf8(b.subrange(s, e))), (b.len() - e) as nat)
    }
}

/// An index at which the buffer may be cut without splitting a codepoint.
pub open spec fn is_cut_point(b: Seq<u8>, i: int) -> bool {
    i == 0 || i == b.len() || (0 <= i < b.len() && is_boundary_byte(b[i]))
}

/// Neither direction finds a boundary within three bytes of `i`.
pub open spec fn search_exhausted(b: Seq<u8>, i: int) -> bool {
    scan_up(b, i, 4) is None && scan_down(b, i, 4) is None
}

/// A buffer that fits the budget is shown whole, decoded, with no byte counts.
pub proof fn lemma_no_truncation(b: Seq<u8>, err: int, max: int)
    requires
        1 <= max,
        0 <= err <= b.len(),
        b.len() <= max,
    ensures
        window_spec(b, err, max) == (0int, b.len() as int),
        rendered(b, err, max) == debug_quoted(lossy_utf8(b)),
{
}

/// For a buffer over the budget, the bytes counted before the window, the
/// window and the bytes counted after it make up the whole buffer.
pub proof fn lemma_counts_cover_buffer(b: Seq<u8>, err: int, max: int)
    requires
        1 <= max,
        0 <= err <= b.len(),
        b.len() > max,
    ensures
        ({
            let (s, e) = window_spec(b, err, max);
            let before = s;
            let after = b.len() - e;
            &&& 0 <= before && 0 <= after && s <= e
            &&& before + (e - s) + after == b.len()
            &&& rendered(b, err, max) == framed(
                before as nat,
                debug_quoted(lossy_utf8(b.subrange(s, e))),
                after as nat,
            )
        }),
{
    let (s0, e0) = window_unadjusted_spec(b.len() as int, err, max);
    lemma_scan_up_found(b, s0, 4);
    lemma_scan_down_found(b, s0, 4);
    lemma_scan_up_found(b, e0, 4);
    lemma_scan_down_found(b, e0, 4);
}

/// Both ends of the window are cut points, but for an end whose search found
/// no boundary in either direction (and an end that met the start there).
pub proof fn lemma_window_on_boundaries(b: Seq<u8>, err: int, max: int)
    requires
        1 <= max,
        0 <= err <= b.len(),
    ensures
        ({
            let (s0, e0) = window_unadjusted_spec(b.len() as int, err, max);
            let (s, e) = window_spec(b, err, max);
            &&& is_cut_point(b, s) || search_exhausted(b, s0)
            &&& is_cut_point(b, e) || search_exhausted(b, e0) || e == s
        }),
{
    let (s0, e0) = window_unadjusted_spec(b.len() as int, err, max);
    lemma_scan_up_found(b, s0, 4);
    lemma_scan_down_found(b, s0, 4);
    lemma_scan_up_found(b, e0, 4);
    lemma_scan_down_found(b, e0, 4);
}

/// With the error far from both ends, the unadjusted window reaches half the
/// budget to either side of it, and adjustment moves each end at most three
/// bytes (an end that met the start stays with it).
pub proof fn lemma_window_centered(b: Seq<u8>, err: int, max: int)
    requires
        1 <= max,
        0 <= err <= b.len(),
        b.len() > max,
        err >= max / 2,
        err + max / 2 < b.len(),
    ensures
        window_unadjusted_spec(b.len() as int, err, max) == (err - max / 2, err + max / 2),
        ({
            let (s, e) = window_spec(b, err, max);
            &&& err - max / 2 - 3 <= s <= err - max / 2 + 3
            &&& (err + max / 2 - 3 <= e <= err + max / 2 + 3 || e == s)
        }),
{
    let (s0, e0) = window_unadjusted_spec(b.len() as int, err, max);
    lemma_scan_up_found(b, s0, 4);
    lemma_scan_down_found(b, s0, 4);
    lemma_scan_up_found(b, e0, 4);
    lemma_scan_down_found(b, e0, 4);
}

/// A buffer that failed UTF-8 decoding, with the offset of its first invalid
/// byte, shown in at most about `max_size` bytes around that offset.
pub struct FromUtf8ErrorContext<'a> {
    bytes: &'a [u8],
    error_index: usize,
    max_size: usize,
}

impl<'a> FromUtf8ErrorContext<'a> {
    /// The buffer shown.
    pub closed spec fn bytes_spec(&self) -> Seq<u8> {
        self.bytes@
    }

    /// The offset of the first byte that did not decode.
    pub closed spec fn error_index_spec(&self) -> int {
        self.error_index as int
    }

    /// The most bytes shown before boundary adjustment.
    pub closed spec fn max_size_spec(&self) -> int {
        self.max_size as int
    }

    /// A positive budget and an error offset inside the buffer.
    pub open spec fn wf(&self) -> bool {
        &&& 1 <= self.max_size_spec()
        &&& 0 <= self.error_index_spec() <= self.bytes_spec().len()
    }

    /// A context for `bytes`, whose first invalid byte is at `error_index`.
    pub fn new(bytes: &'a [u8], error_index: usize, max_size: usize) -> (r: Self)
        requires
            error_index <= bytes@.len(),
            max_size >= 1,
        ensures
            r.wf(),
            r.bytes_spec() == bytes@,
            r.error_index_spec() == error_index,
            r.max_size_spec() == max_size,
    {
        FromUtf8ErrorContext { bytes, error_index, max_size }
    }

    /// The window before boundary adjustment.
    fn window_unadjusted(&self) -> (r: (usize, usize))
        requires
            self.wf(),
        ensures
            (r.0 as int, r.1 as int) == window_unadjusted_spec(
                self.bytes@.len() as int,
                self.error_index as int,
                self.max_size as int,
            ),
    {
        let len = self.bytes.len();
        if len <= self.max_size {
            return (0, len);
        }
        let half_window = self.max_size / 2;
        let error_index = self.error_index;
        if error_index >= len - half_window {
            return (len - self.max_size, len);
        }
        if error_index < half_window {
            return (0, self.max_size);
        }
        (error_index - half_window, error_index + half_window)
    }

    /// The nearest boundary at or below `index`, looking at most three bytes down.
    fn adjust_index_down(&self, index: usize) -> (r: Option<usize>)
        requires
            index < self.bytes@.len(),
        ensures
            r == match scan_down(self.bytes@, index as int, 4) {
                Some(j) => Some(j as usize),
                None => None::<usize>,
            },
    {
        let lower_bound: usize = if index >= 3 { index - 3 } else { 0 };
        let mut i: usize = index;
        loop
            invariant
                lower_bound <= i <= index < self.bytes@.len(),
                lower_bound == if index >= 3 { index - 3 } else { 0int },
                scan_down(self.bytes@, index as int, 4) == scan_down(
                    self.bytes@,
                    i as int,
                    (4 - (index - i)) as nat,
                ),
            decreases i,
        {
            if is_codepoint_boundary(self.bytes[i]) {
                return Some(i);
            }
            if i == lower_bound {
                assert(scan_down(self.bytes@, i as int, (4 - (index - i)) as nat) == scan_down(
                    self.bytes@,
                    i - 1,
                    (4 - (index - i) - 1) as nat,
                ));
                assert(scan_down(self.bytes@, i - 1, (4 - (index - i) - 1) as nat) == None::<int>)
                    by {
                    if i >= 1 {
                        assert(4 - (index - i) - 1 == 0);
                    }
                };
                return None;
            }
            i = i - 1;
        }
    }

    /// The nearest boundary at or above `index`, looking at most three bytes up.
    fn adjust_index_up(&self, index: usize) -> (r: Option<usize>)
        requires
            index < self.bytes@.len(),
        ensures
            r == match scan_up(self.bytes@, index as int, 4) {
                Some(j) => Some(j as usize),
                None => None::<usize>,
            },
    {
        let len = self.bytes.len();
        let upper_bound: usize = if len - index > 4 { index + 4 } else { len };
        let mut i: usize = index;
        while i < upper_bound
            invariant
                index <= i <= upper_bound <= len,
                len == self.bytes@.len(),
                upper_bound == if len - index > 4 { index + 4 } else { len as int },
                scan_up(self.bytes@, index as int, 4) == scan_up(
                    self.bytes@,
                    i as int,
                    (4 - (i - index)) as nat,
                ),
            decreases upper_bound - i,
        {
            if is_codepoint_boundary(self.bytes[i]) {
                return Some(i);
            }
            i = i + 1;
        }
        None
    }

    /// The window of bytes to show: `window_unadjusted` with each endpoint
    /// moved onto a codepoint boundary where one lies within three bytes.
    pub fn window(&self) -> (r: (usize, usize))
        requires
            self.wf(),
        ensures
            (r.0 as int, r.1 as int) == window_spec(
                self.bytes_spec(),
                self.error_index_spec(),
                self.max_size_spec(),
            ),
            r.0 <= r.1 <= self.bytes_spec().len(),
    {
        let len = self.bytes.len();
        let (start0, end0) = self.window_unadjusted();
        let mut start = start0;
        if start != 0 && start < len && !is_codepoint_boundary(self.bytes[start]) {
            start = match self.adjust_index_up(start) {
                Some(j) => j,
                None => match self.adjust_index_down(start) {
                    Some(j) => j,
                    None => start,
                },
            };
        }
        let mut end = end0;
        if end < len && !is_codepoint_boundary(self.bytes[end]) {
            end = match self.adjust_index_down(end) {
                Some(j) => j,
                None => match self.adjust_index_up(end) {
                    Some(j) => j,
                    None => end,
                },
            };
        }
        proof {
            lemma_scan_up_found(self.bytes@, start0 as int, 4);
            lemma_scan_down_found(self.bytes@, start0 as int, 4);
            lemma_scan_up_found(self.bytes@, end0 as int, 4);
            lemma_scan_down_found(self.bytes@, end0 as int, 4);
        }
        if end < start {
            end = start;
        }
        (start, end)
    }

    /// The excerpt: the whole buffer quoted when it fits the budget, else the
    /// window quoted between the counts of the bytes elided before and after it.
    pub fn to_string(&self) -> (r: String)
        requires
            self.wf(),
        ensures
            r@ == rendered(self.bytes_spec(), self.error_index_spec(), self.max_size_spec()),
    {
        let len = self.bytes.len();
        if len <= self.max_size {
            let text = decode_lossy(self.bytes);
            return quote_debug(text.as_str());
        }
        let (start, end) = self.window();
        let text = decode_lossy(&self.bytes[start..end]);
        let quoted = quote_debug(text.as_str());
        let r = frame_excerpt(start, quoted.as_str(), len - end);
        r
    }
}

} // verus!
