//! An inline keyboard laid out from a flat list of labelled buttons: the
//! buttons are chunked into rows of a configured width, and each shown
//! button reports the flat index of the button it was made from. The data
//! each index stands for is kept beside the keyboard, to be stored by the
//! caller and looked up when a button is pressed.

use vstd::prelude::*;
use vstd::arithmetic::div_mod::lemma_fundamental_div_mod_converse;

verus! {

/// A button to lay out: its label and the data a press should resolve to.
pub struct InlineDataKeyboardButton {
    pub text: String,
    pub data: String,
}

/// A laid-out button: its label and the flat index it reports when pressed.
pub struct InlineCallbackButton {
    pub text: String,
    pub index: usize,
}

/// A keyboard to be laid out in rows of `chunk_size` buttons.
pub struct InlineDataKeyboard {
    chunk_size: usize,
    buttons: Vec<InlineDataKeyboardButton>,
}

/// Builder holding the row width until the buttons are supplied.
pub struct InlineDataKeyboardBuilder {
    chunk_size: usize,
}

/// How many rows a keyboard of `n` buttons has at `c` buttons per row: the
/// division rounded up.
pub open spec fn spec_row_count(n: int, c: int) -> int
    recommends
        c >= 1,
{
    (n + c - 1) / c
}

/// The length of row `i`: a full `c` buttons, except that the last row
/// holds only what is left.
pub open spec fn spec_row_len(i: int, c: int, n: int) -> int
    recommends
        c >= 1,
{
    if (i + 1) * c <= n {
        c
    } else {
        n - i * c
    }
}

/// The laid-out keyboard `rows` chunks `buttons` at `c` per row, in order:
/// the row count and each row's length are fixed, and the button at row `i`,
/// column `j` carries the label and the flat index of button `i * c + j`.
pub open spec fn spec_keyboard_layout(
    buttons: Seq<InlineDataKeyboardButton>,
    c: int,
    rows: Seq<Vec<InlineCallbackButton>>,
) -> bool {
    let n = buttons.len() as int;
    &&& rows.len() == spec_row_count(n, c)
    &&& forall|i: int| 0 <= i < rows.len() ==> (#[trigger] rows[i]@.len()) == spec_row_len(i, c, n)
    &&& forall|i: int, j: int|
        0 <= i < rows.len() && 0 <= j < rows[i]@.len() ==> (#[trigger] rows[i]@[j]).index == i * c
            + j && rows[i]@[j].text@ == buttons[i * c + j].text@
}

impl InlineDataKeyboard {
    pub closed spec fn spec_chunk_size(self) -> usize {
        self.chunk_size
    }

    pub closed spec fn spec_buttons(self) -> Seq<InlineDataKeyboardButton> {
        self.buttons@
    }

    /// Starts a keyboard with the default row width of three buttons.
    pub fn new() -> (b: InlineDataKeyboardBuilder)
        ensures
            b.spec_chunk_size() == 3,
    {
        InlineDataKeyboardBuilder { chunk_size: 3 }
    }

    /// Lays the buttons out in rows, each shown button carrying its flat
    /// index.
    pub fn build_inline_keyboard(&self) -> (rows: Vec<Vec<InlineCallbackButton>>)
        requires
            self.spec_chunk_size() >= 1,
        ensures
            spec_keyboard_layout(self.spec_buttons(), self.spec_chunk_size() as int, rows@),
    {
        let n = self.buttons.len();
        let c = self.chunk_size;
        let mut rows: Vec<Vec<InlineCallbackButton>> = Vec::new();
        let mut start: usize = 0;
        proof {
            assert(rows@.len() == 0);
        }
        while start < n
            invariant
                c == self.spec_chunk_size(),
                c >= 1,
                n == self.spec_buttons().len(),
                n == self.buttons@.len(),
                start <= n,
                start as int <= rows@.len() as int * c as int,
                start == n || start as int == rows@.len() as int * c as int,
                rows@.len() >= 1 ==> (rows@.len() as int - 1) * (c as int) < n as int,
                forall|i: int|
                    0 <= i < rows@.len() ==> (#[trigger] rows@[i]@.len()) == spec_row_len(
                        i,
                        c as int,
                        n as int,
                    ),
                forall|i: int, j: int|
                    0 <= i < rows@.len() && 0 <= j < rows@[i]@.len() ==> (#[trigger] rows@[i]@[j]).index
                        == i * c + j && rows@[i]@[j].text@ == self.buttons@[i * c + j].text@,
            decreases n - start,
        {
            let remaining = n - start;
            let len = if c < remaining {
                c
            } else {
                remaining
            };
            let ghost row_index = rows@.len() as int;
            proof {
                assert(start == rows@.len() * c);
            }
            let mut row: Vec<InlineCallbackButton> = Vec::new();
            let mut k = start;
            while k < start + len
                invariant
                    start <= k <= start + len,
                    start + len <= n,
                    n == self.buttons@.len(),
                    k - start == row@.len(),
                    forall|j: int|
                        0 <= j < row@.len() ==> (#[trigger] row@[j]).index == start + j
                            && row@[j].text@ == self.buttons@[start + j].text@,
                decreases start + len - k,
            {
                row.push(
                    InlineCallbackButton { text: self.buttons[k].text.clone(), index: k },
                );
                k = k + 1;
            }
            rows.push(row);
            start = start + len;
            proof {
                assert(rows@.len() * c == row_index * c + c) by (nonlinear_arith)
                    requires
                        rows@.len() == row_index + 1,
                ;
                if len == c {
                    assert(start == rows@.len() * c);
                } else {
                    assert(start == n);
                }
                assert((rows@.len() - 1) * c == row_index * c) by (nonlinear_arith)
                    requires
                        rows@.len() == row_index + 1,
                ;
                assert(rows@[row_index]@.len() == spec_row_len(row_index, c as int, n as int));
            }
        }
        proof {
            let r = rows@.len() as int;
            let ci = c as int;
            let ni = n as int;
            assert(start == n);
            if r == 0 {
                assert(ni == 0);
                lemma_fundamental_div_mod_converse(ni + ci - 1, ci, 0, ci - 1);
            } else {
                assert((r - 1) * ci < ni);
                assert(ni <= r * ci);
                assert(r * ci == (r - 1) * ci + ci) by (nonlinear_arith);
                assert(ni + ci - 1 == r * ci + (ni + ci - 1 - r * ci));
                assert(0 <= ni + ci - 1 - r * ci < ci);
                lemma_fundamental_div_mod_converse(ni + ci - 1, ci, r, ni + ci - 1 - r * ci);
            }
            assert(rows@.len() == spec_row_count(ni, ci));
        }
        rows
    }
}

impl InlineDataKeyboardBuilder {
    pub closed spec fn spec_chunk_size(self) -> usize {
        self.chunk_size
    }

    /// Sets the row width.
    pub fn chunk_size(self, chunk_size: usize) -> (b: Self)
        ensures
            b.spec_chunk_size() == chunk_size,
    {
        Self { chunk_size }
    }

    /// Supplies the buttons and finishes the keyboard.
    pub fn buttons(self, buttons: Vec<InlineDataKeyboardButton>) -> (k: InlineDataKeyboard)
        ensures
            k.spec_chunk_size() == self.spec_chunk_size(),
            k.spec_buttons() == buttons@,
    {
        InlineDataKeyboard { chunk_size: self.chunk_size, buttons }
    }
}

} // verus!
