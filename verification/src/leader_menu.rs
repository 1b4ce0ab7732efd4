//! The leader menu's data: which submenu is open and the key hints it
//! shows. Painting them into terminal cells is the renderer's business.
use vstd::prelude::*;
use vstd::utf8::encode_utf8;

verus! {

#[derive(Debug, Clone, PartialEq, Eq, Structural)]
pub enum SubMenu {
    Root,
}

/// One key binding as the menu displays it: the key, then a three-byte
/// `" : "` separator, then the action's description.
#[derive(Debug)]
pub struct KeyHint {
    pub key: String,
    pub action: String,
}

#[derive(Debug)]
pub struct LeaderMenu {
    pub sub_menu: SubMenu,
}

impl KeyHint {
    pub fn new(key: &str, action: &str) -> (r: KeyHint)
        ensures
            r.key@ == key@,
            r.action@ == action@,
    {
        KeyHint { key: key.to_owned(), action: action.to_owned() }
    }

    /// The hint's width in bytes, separator included.
    pub fn len(&self) -> (r: usize)
        requires
            encode_utf8(self.key@).len() + encode_utf8(self.action@).len() + 3 <= usize::MAX,
        ensures
            r == encode_utf8(self.key@).len() + encode_utf8(self.action@).len() + 3,
    {
        self.key.as_str().len() + self.action.as_str().len() + 3
    }
}

/// The display width of one hint: key, three-byte separator, action.
pub open spec fn hint_width_spec(h: KeyHint) -> int {
    encode_utf8(h.key@).len() + encode_utf8(h.action@).len() + 3int
}

pub open spec fn hint_widths(items: Seq<KeyHint>) -> Seq<int> {
    items.map_values(|h: KeyHint| hint_width_spec(h))
}

/// The widths of the root menu's hints, in display order.
pub open spec fn root_menu_widths() -> Seq<int> {
    seq![
        encode_utf8("q"@).len() + encode_utf8("Quit"@).len() + 3int,
        encode_utf8("w"@).len() + encode_utf8("Save Buffer"@).len() + 3int,
    ]
}

/// The widest width among `ws[lo..hi]`.
pub open spec fn col_max(ws: Seq<int>, lo: int, hi: int) -> int
    decreases hi - lo,
{
    if lo >= hi {
        0
    } else {
        let rest = col_max(ws, lo + 1, hi);
        if ws[lo] >= rest {
            ws[lo]
        } else {
            rest
        }
    }
}

/// The summed widths of the full columns a height-`h` packing makes: each
/// column as wide as its widest hint. Hints beyond the last full column are
/// not counted, as the renderer drops a partial column.
pub open spec fn sum_col_maxes(ws: Seq<int>, h: int) -> int
    decreases ws.len() when h >= 1
{
    if h < 1 || ws.len() < h {
        0
    } else {
        col_max(ws, 0, h) + sum_col_maxes(ws.skip(h), h)
    }
}

pub open spec fn num_full_cols(len: int, h: int) -> int
    decreases len when h >= 1
{
    if h < 1 || len < h {
        0
    } else {
        1 + num_full_cols(len - h, h)
    }
}

/// The total width the menu needs with columns of `h` hints each: the full
/// columns plus the minimum spacing around and between them.
pub open spec fn packed_width(ws: Seq<int>, h: int) -> int {
    2 * (num_full_cols(ws.len() as int, h) + 1) + sum_col_maxes(ws, h)
}

pub open spec fn menu_fits(ws: Seq<int>, h: int, width: int) -> bool {
    packed_width(ws, h) <= width
}

/// A UTF-8 encoding spends at most four bytes per character.
proof fn lemma_encode_utf8_len_bound(chars: Seq<char>)
    ensures
        encode_utf8(chars).len() <= 4 * chars.len(),
    decreases chars.len(),
{
    if chars.len() > 0 {
        assert(vstd::utf8::encode_scalar(chars[0] as u32).len() <= 4);
        lemma_encode_utf8_len_bound(chars.drop_first());
    }
}

proof fn lemma_col_max_shift(ws: Seq<int>, d: int, lo: int, hi: int)
    requires
        0 <= d,
        0 <= lo <= hi,
        d + hi <= ws.len(),
    ensures
        col_max(ws.skip(d), lo, hi) == col_max(ws, d + lo, d + hi),
    decreases hi - lo,
{
    if lo < hi {
        assert(ws.skip(d)[lo] == ws[d + lo]);
        lemma_col_max_shift(ws, d, lo + 1, hi);
    }
}

/// The widest hint among `items[lo..hi]`, walked back to front so each step
/// matches one unfolding of `col_max`.
fn col_max_exec(items: &Vec<KeyHint>, lo: usize, hi: usize) -> (m: usize)
    requires
        lo <= hi <= items@.len(),
        forall|i: int| 0 <= i < items@.len() ==> hint_width_spec(#[trigger] items@[i]) <= 0x1000,
    ensures
        m == col_max(hint_widths(items@), lo as int, hi as int),
        m <= 0x1000,
{
    let mut m: usize = 0;
    let mut j = hi;
    while j > lo
        invariant
            lo <= j <= hi <= items@.len(),
            forall|i: int|
                0 <= i < items@.len() ==> hint_width_spec(#[trigger] items@[i]) <= 0x1000,
            m == col_max(hint_widths(items@), j as int, hi as int),
            m <= 0x1000,
        decreases j,
    {
        j = j - 1;
        let w = items[j].len();
        if w > m {
            m = w;
        }
    }
    m
}

/// The width a height-`h` packing of the hints occupies, column by column.
fn packed_width_exec(items: &Vec<KeyHint>, h: usize) -> (w: usize)
    requires
        1 <= h,
        items@.len() <= 0x100,
        forall|i: int| 0 <= i < items@.len() ==> hint_width_spec(#[trigger] items@[i]) <= 0x1000,
    ensures
        w == packed_width(hint_widths(items@), h as int),
{
    let n = items.len();
    let ghost ws = hint_widths(items@);
    let mut total: usize = 0;
    let mut cols: usize = 0;
    let mut start: usize = 0;
    proof {
        assert(ws.skip(0) =~= ws);
    }
    while n - start >= h
        invariant
            1 <= h,
            start <= n == items@.len() <= 0x100,
            forall|i: int|
                0 <= i < items@.len() ==> hint_width_spec(#[trigger] items@[i]) <= 0x1000,
            ws == hint_widths(items@),
            cols <= start,
            total <= 0x1000 * cols,
            total + sum_col_maxes(ws.skip(start as int), h as int) == sum_col_maxes(
                ws,
                h as int,
            ),
            cols + num_full_cols(n - start, h as int) == num_full_cols(n as int, h as int),
        decreases n - start,
    {
        let m = col_max_exec(items, start, start + h);
        proof {
            lemma_col_max_shift(ws, start as int, 0, h as int);
            assert(ws.skip(start as int).skip(h as int) =~= ws.skip(start + h));
        }
        total = total + m;
        cols = cols + 1;
        start = start + h;
    }
    proof {
        assert(ws.skip(start as int).len() < h);
    }
    2 * (cols + 1) + total
}

impl LeaderMenu {
    pub fn new(sub_menu: &SubMenu) -> (r: LeaderMenu)
        ensures
            r.sub_menu == *sub_menu,
    {
        LeaderMenu { sub_menu: sub_menu.clone() }
    }

    /// The rows the menu needs at the given terminal width: the smallest
    /// column height whose packed columns fit, plus three rows of chrome. A
    /// width too narrow for even the column spacing gets the single-column
    /// height rather than no answer at all.
    pub fn required_height(sub_menu: &SubMenu, width: u16) -> (r: u16)
        ensures
            r >= 4,
            ({
                let ws = root_menu_widths();
                let h = r as int - 3;
                &&& menu_fits(ws, h, width as int) || h > ws.len()
                &&& forall|k: int| 1 <= k < h ==> !menu_fits(ws, k, width as int)
            }),
    {
        let items = Self::menu_items(sub_menu);
        proof {
            reveal_strlit("q");
            reveal_strlit("Quit");
            reveal_strlit("w");
            reveal_strlit("Save Buffer");
            lemma_encode_utf8_len_bound("q"@);
            lemma_encode_utf8_len_bound("Quit"@);
            lemma_encode_utf8_len_bound("w"@);
            lemma_encode_utf8_len_bound("Save Buffer"@);
            assert(hint_widths(items@) =~= root_menu_widths());
        }
        let mut height: usize = 1;
        loop
            invariant_except_break
                1 <= height <= items@.len() + 1,
                items@.len() == 2,
                forall|i: int|
                    0 <= i < items@.len() ==> hint_width_spec(#[trigger] items@[i]) <= 0x1000,
                hint_widths(items@) == root_menu_widths(),
                forall|k: int|
                    1 <= k < height ==> !menu_fits(root_menu_widths(), k, width as int),
            ensures
                1 <= height <= items@.len() + 1,
                menu_fits(root_menu_widths(), height as int, width as int) || height as int
                    > root_menu_widths().len(),
                forall|k: int|
                    1 <= k < height ==> !menu_fits(root_menu_widths(), k, width as int),
            decreases items@.len() + 2 - height,
        {
            let packed = packed_width_exec(&items, height);
            if packed <= width as usize || height > items.len() {
                break;
            }
            height = height + 1;
        }
        (height + 3) as u16
    }

    pub fn menu_items(sub_menu: &SubMenu) -> (r: Vec<KeyHint>)
        ensures
            r@.len() == 2,
            r@[0].key@ == "q"@ && r@[0].action@ == "Quit"@,
            r@[1].key@ == "w"@ && r@[1].action@ == "Save Buffer"@,
    {
        match sub_menu {
            SubMenu::Root => {
                let mut items: Vec<KeyHint> = Vec::new();
                items.push(KeyHint::new("q", "Quit"));
                items.push(KeyHint::new("w", "Save Buffer"));
                items
            },
        }
    }
}

} // verus!
