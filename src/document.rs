//! The page that carries a symbol: its title and notes regions, and the
//! placement and scale of the symbol with its quiet zone.

use vstd::prelude::*;
use vstd::string::*;

use crate::page::{page_height, page_of_name, page_width, PageSize, UnknownPageSize, PAGE_MARGIN};
use crate::symbol::{
    encode, encoded, symbol_error_text, symbol_width, EcLevel, ModuleGrid, SymbolError,
};
use crate::text::{decimal, push_decimal};

verus! {

/// The height of the title region at the top of the page.
pub const TITLE_HEIGHT: u64 = 20_000;

/// The height of the notes region at the bottom of the page.
pub const NOTES_HEIGHT: u64 = 25_000;

/// The blank border around a symbol, in modules.
pub const QUIET_ZONE: u64 = 4;

/// The smallest module that prints and scans reliably.
pub const MIN_MODULE_SIZE: u64 = 500;

/// The width available to the symbol and its quiet zone.
pub open spec fn area_width(p: PageSize) -> int {
    page_width(p) - 2 * PAGE_MARGIN
}

/// The height available to the symbol and its quiet zone, below the title
/// and above the notes region where there is one.
pub open spec fn area_height(p: PageSize, skip_notes_line: bool) -> int {
    page_height(p) - 2 * PAGE_MARGIN - TITLE_HEIGHT - if skip_notes_line {
        0
    } else {
        NOTES_HEIGHT as int
    }
}

/// The side of the square that the symbol and its quiet zone may fill.
pub open spec fn symbol_extent(p: PageSize, skip_notes_line: bool) -> int {
    if area_width(p) <= area_height(p, skip_notes_line) {
        area_width(p)
    } else {
        area_height(p, skip_notes_line)
    }
}

/// The largest module size at which a symbol `width` modules across fits,
/// quiet zone included.
pub open spec fn module_size_for(p: PageSize, skip_notes_line: bool, width: int) -> int {
    symbol_extent(p, skip_notes_line) / (width + 2 * QUIET_ZONE)
}

/// The left edge of the symbol, centred across the page.
pub open spec fn symbol_left_for(p: PageSize, module: int, width: int) -> int {
    (page_width(p) - module * width) / 2
}

/// The top edge of the symbol, centred in its region below the title.
pub open spec fn symbol_top_for(p: PageSize, skip_notes_line: bool, module: int, width: int) -> int {
    PAGE_MARGIN + TITLE_HEIGHT + (area_height(p, skip_notes_line) - module * width) / 2
}

/// A document being prepared: its title, page and error correction level.
#[derive(Debug)]
pub struct Document {
    pub title: String,
    pub page_size: PageSize,
    pub ec_level: EcLevel,
}

/// Where everything stands on the finished page. Lengths are in micrometres,
/// measured from the top left corner of the page.
#[derive(Debug)]
pub struct PageLayout {
    pub page_size: PageSize,
    pub title: String,
    /// The label of the notes line, or `None` where the line is left out.
    pub notes_label: Option<String>,
    /// Whether a diagnostic grid is drawn over the page.
    pub debug_grid: bool,
    pub grid: ModuleGrid,
    pub module_size: u64,
    pub symbol_left: u64,
    pub symbol_top: u64,
}

impl PageLayout {
    /// The symbol is well formed, its modules are no smaller than the
    /// minimum, and its quiet zone lies clear of the margins and of the
    /// title and notes regions.
    pub open spec fn wf(&self) -> bool {
        let m = self.module_size as int;
        let side = m * self.grid.width;
        let skip = self.notes_label is None;
        &&& self.grid.wf()
        &&& m >= MIN_MODULE_SIZE
        &&& PAGE_MARGIN + QUIET_ZONE * m <= self.symbol_left
        &&& self.symbol_left + side + QUIET_ZONE * m <= page_width(self.page_size) - PAGE_MARGIN
        &&& PAGE_MARGIN + TITLE_HEIGHT + QUIET_ZONE * m <= self.symbol_top
        &&& self.symbol_top + side + QUIET_ZONE * m <= PAGE_MARGIN + TITLE_HEIGHT + area_height(
            self.page_size,
            skip,
        )
    }
}

/// The top left corner of module `i` (counted row by row) of a laid-out
/// symbol.
pub open spec fn module_origin(l: &PageLayout, i: int) -> (u64, u64) {
    let w = l.grid.width as int;
    let m = l.module_size as int;
    ((l.symbol_left + (i % w) * m) as u64, (l.symbol_top + (i / w) * m) as u64)
}

/// The corners of the dark modules among the first `n`, in order.
pub open spec fn dark_origins(l: &PageLayout, n: int) -> Seq<(u64, u64)>
    decreases n,
{
    if n <= 0 {
        Seq::empty()
    } else if l.grid.modules@[n - 1] {
        dark_origins(l, n - 1).push(module_origin(l, n - 1))
    } else {
        dark_origins(l, n - 1)
    }
}

impl PageLayout {
    /// The top left corners of the dark modules, row by row: each is a
    /// square of `module_size` to be filled.
    pub fn dark_modules(&self) -> (r: Vec<(u64, u64)>)
        requires
            self.wf(),
        ensures
            r@ == dark_origins(self, self.grid.modules@.len() as int),
    {
        let w = self.grid.width;
        let m = self.module_size;
        let n = self.grid.modules.len();
        let mut r: Vec<(u64, u64)> = Vec::new();
        let mut i: usize = 0;
        while i < n
            invariant
                self.wf(),
                w == self.grid.width,
                m == self.module_size,
                n == self.grid.modules@.len(),
                i <= n,
                r@ == dark_origins(self, i as int),
            decreases n - i,
        {
            if self.grid.modules[i] {
                let col = i % w;
                let row = i / w;
                assert(row < w) by (nonlinear_arith)
                    requires
                        row == i / w,
                        i < w * w,
                        w > 0,
                ;
                assert(col * m <= w * m && row * m <= w * m) by (nonlinear_arith)
                    requires
                        col < w,
                        row < w,
                        i < n,
                        n == w * w,
                        row == i / w,
                        w > 0,
                ;
                let x = self.symbol_left + col as u64 * m;
                let y = self.symbol_top + row as u64 * m;
                r.push((x, y));
            }
            i = i + 1;
        }
        r
    }
}

/// Why a page could not be laid out.
#[derive(Debug, Clone, Copy, PartialEq, Eq, Structural)]
pub enum LayoutError {
    /// The envelope could not be made into a symbol.
    Symbol(SymbolError),
    /// The symbol's modules would be smaller than the smallest scannable size.
    ModuleTooSmall { module_size: u64, minimum: u64 },
}

/// The message that describes a layout error.
pub open spec fn layout_error_text(e: LayoutError) -> Seq<char> {
    match e {
        LayoutError::Symbol(s) => symbol_error_text(s),
        LayoutError::ModuleTooSmall { module_size, minimum } => "module size of "@ + decimal(
            module_size as nat,
        ) + " um is below the minimum of "@ + decimal(minimum as nat) + " um"@,
    }
}

impl LayoutError {
    /// A human-readable message.
    pub fn message(&self) -> (r: String)
        ensures
            r@ == layout_error_text(*self),
    {
        proof {
            reveal_strlit("module size of ");
            reveal_strlit(" um is below the minimum of ");
            reveal_strlit(" um");
        }
        match self {
            LayoutError::Symbol(s) => s.message(),
            LayoutError::ModuleTooSmall { module_size, minimum } => {
                let mut r = String::from_str("module size of ");
                push_decimal(&mut r, *module_size);
                r.append(" um is below the minimum of ");
                push_decimal(&mut r, *minimum);
                r.append(" um");
                r
            },
        }
    }
}

/// A placed symbol keeps its quiet zone clear of the margins and of the
/// title and notes regions.
pub proof fn lemma_quiet_zone_kept(p: PageSize, skip_notes_line: bool, width: int)
    requires
        21 <= width <= 177,
    ensures
        ({
            let m = module_size_for(p, skip_notes_line, width);
            let left = symbol_left_for(p, m, width);
            let top = symbol_top_for(p, skip_notes_line, m, width);
            &&& PAGE_MARGIN + QUIET_ZONE * m <= left
            &&& left + m * width + QUIET_ZONE * m <= page_width(p) - PAGE_MARGIN
            &&& PAGE_MARGIN + TITLE_HEIGHT + QUIET_ZONE * m <= top
            &&& top + m * width + QUIET_ZONE * m <= PAGE_MARGIN + TITLE_HEIGHT + area_height(
                p,
                skip_notes_line,
            )
        }),
{
    let e = symbol_extent(p, skip_notes_line);
    let n = width + 2 * QUIET_ZONE;
    let m = module_size_for(p, skip_notes_line, width);
    assert(m * n <= e) by (nonlinear_arith)
        requires
            m == e / n,
            n > 0,
            e >= 0,
    ;
    assert(m * n == m * width + 2 * QUIET_ZONE * m) by (nonlinear_arith)
        requires
            n == width + 2 * QUIET_ZONE,
    ;
}

/// On every supported page, a symbol of any version gets modules of at
/// least the minimum size.
pub proof fn lemma_module_size_sufficient(p: PageSize, skip_notes_line: bool, width: int)
    requires
        21 <= width <= 177,
    ensures
        module_size_for(p, skip_notes_line, width) >= MIN_MODULE_SIZE,
{
    let e = symbol_extent(p, skip_notes_line);
    let n = width + 2 * QUIET_ZONE;
    assert(e >= 190_000);
    assert(e / n >= 500) by (nonlinear_arith)
        requires
            e >= 190_000,
            0 < n <= 185,
    ;
}

impl Document {
    /// A document with the given title and page, at error correction level M.
    pub fn new(title: String, page_size: PageSize) -> (r: Document)
        ensures
            r.title == title,
            r.page_size == page_size,
            r.ec_level == EcLevel::M,
    {
        Document { title, page_size, ec_level: EcLevel::M }
    }

    /// A document whose page is given by its identifier; fails on an
    /// identifier that names no supported page.
    pub fn initialize(title: String, page_name: &str) -> (r: Result<Document, UnknownPageSize>)
        ensures
            match page_of_name(page_name@) {
                Some(p) => r is Ok && r->Ok_0.title == title && r->Ok_0.page_size == p
                    && r->Ok_0.ec_level == EcLevel::M,
                None => r is Err && r->Err_0.name@ == page_name@,
            },
    {
        match PageSize::from_name(page_name) {
            Ok(page_size) => Ok(Document::new(title, page_size)),
            Err(e) => Err(e),
        }
    }

    /// The same document at another error correction level.
    pub fn with_ec_level(self, ec_level: EcLevel) -> (r: Document)
        ensures
            r.title == self.title,
            r.page_size == self.page_size,
            r.ec_level == ec_level,
    {
        Document { ec_level, ..self }
    }

    /// Lays out the page for an envelope: the smallest symbol that holds it
    /// at the document's level, scaled to the largest module size that fits
    /// with its quiet zone, and centred in the space between title and notes.
    pub fn layout(&self, debug_grid: bool, notes_label: String, skip_notes_line: bool, envelope: &[u8]) -> (r: Result<PageLayout, LayoutError>)
        ensures
            match encoded(envelope@, self.ec_level) {
                Err(e) => r == Err::<PageLayout, LayoutError>(LayoutError::Symbol(e)),
                Ok((version, modules)) => {
                    let width = symbol_width(version as int);
                    let m = module_size_for(self.page_size, skip_notes_line, width);
                    if m < MIN_MODULE_SIZE {
                        r == Err::<PageLayout, LayoutError>(
                            LayoutError::ModuleTooSmall {
                                module_size: m as u64,
                                minimum: MIN_MODULE_SIZE,
                            },
                        )
                    } else {
                        &&& r is Ok
                        &&& r->Ok_0.wf()
                        &&& r->Ok_0.page_size == self.page_size
                        &&& r->Ok_0.title@ == self.title@
                        &&& r->Ok_0.notes_label == if skip_notes_line {
                            None
                        } else {
                            Some(notes_label)
                        }
                        &&& r->Ok_0.debug_grid == debug_grid
                        &&& r->Ok_0.grid.version == version
                        &&& r->Ok_0.grid.width == width
                        &&& r->Ok_0.grid.modules@ == modules
                        &&& r->Ok_0.module_size == m
                        &&& r->Ok_0.symbol_left == symbol_left_for(self.page_size, m, width)
                        &&& r->Ok_0.symbol_top == symbol_top_for(
                            self.page_size,
                            skip_notes_line,
                            m,
                            width,
                        )
                    }
                },
            },
    {
        let grid = match encode(envelope, self.ec_level) {
            Ok(g) => g,
            Err(e) => {
                return Err(LayoutError::Symbol(e));
            },
        };
        let pw = self.page_size.width();
        let ph = self.page_size.height();
        let aw = pw - 2 * PAGE_MARGIN;
        let notes: u64 = if skip_notes_line { 0 } else { NOTES_HEIGHT };
        let ah = ph - 2 * PAGE_MARGIN - TITLE_HEIGHT - notes;
        let extent = if aw <= ah { aw } else { ah };
        let width = grid.width as u64;
        let m = extent / (width + 2 * QUIET_ZONE);
        if m < MIN_MODULE_SIZE {
            return Err(LayoutError::ModuleTooSmall { module_size: m, minimum: MIN_MODULE_SIZE });
        }
        assert(m * width <= extent) by (nonlinear_arith)
            requires
                m as int == extent as int / (width as int + 8),
                width <= 177,
        ;
        let side = m * width;
        let left = (pw - side) / 2;
        let top = PAGE_MARGIN + TITLE_HEIGHT + (ah - side) / 2;
        proof {
            lemma_quiet_zone_kept(self.page_size, skip_notes_line, width as int);
        }
        let label = if skip_notes_line { None } else { Some(notes_label) };
        Ok(PageLayout {
            page_size: self.page_size,
            title: self.title.clone(),
            notes_label: label,
            debug_grid,
            grid,
            module_size: m,
            symbol_left: left,
            symbol_top: top,
        })
    }
}

} // verus!
