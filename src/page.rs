//! The supported page sizes and their dimensions, in micrometres.

use vstd::prelude::*;
use vstd::string::*;


verus! {

/// A supported physical page size.
#[derive(Debug, Clone, Copy, PartialEq, Eq, Structural)]
pub enum PageSize {
    /// ISO A4, 210 mm by 297 mm.
    A4,
    /// US Letter, 8.5 in by 11 in.
    Letter,
}

/// The blank margin kept on every side of the page.
pub const PAGE_MARGIN: u64 = 10_000;

/// The page width.
pub open spec fn page_width(p: PageSize) -> int {
    match p {
        PageSize::A4 => 210_000,
        PageSize::Letter => 215_900,
    }
}

/// The page height.
pub open spec fn page_height(p: PageSize) -> int {
    match p {
        PageSize::A4 => 297_000,
        PageSize::Letter => 279_400,
    }
}

/// The identifier by which a page size is requested.
pub open spec fn page_name(p: PageSize) -> Seq<char> {
    match p {
        PageSize::A4 => "a4"@,
        PageSize::Letter => "letter"@,
    }
}

/// The page size that an identifier names, if any.
pub open spec fn page_of_name(name: Seq<char>) -> Option<PageSize> {
    if name == "a4"@ {
        Some(PageSize::A4)
    } else if name == "letter"@ {
        Some(PageSize::Letter)
    } else {
        None
    }
}

/// Each page size is found again by its identifier.
pub proof fn lemma_name_round_trip(p: PageSize)
    ensures
        page_of_name(page_name(p)) == Some(p),
{
    reveal_strlit("a4");
    reveal_strlit("letter");
    assert("letter"@.len() != "a4"@.len());
}

/// A page size that was asked for and is not supported.
#[derive(Debug, PartialEq, Eq)]
pub struct UnknownPageSize {
    pub name: String,
}

impl UnknownPageSize {
    /// A human-readable message naming the identifier.
    pub fn message(&self) -> (r: String)
        ensures
            r@ == "unknown page size: "@ + self.name@,
    {
        proof {
            reveal_strlit("unknown page size: ");
        }
        let mut r = String::from_str("unknown page size: ");
        r.append(self.name.as_str());
        r
    }
}

impl PageSize {
    /// The page width.
    pub fn width(&self) -> (r: u64)
        ensures
            r == page_width(*self),
    {
        match self {
            PageSize::A4 => 210_000,
            PageSize::Letter => 215_900,
        }
    }

    /// The page height.
    pub fn height(&self) -> (r: u64)
        ensures
            r == page_height(*self),
    {
        match self {
            PageSize::A4 => 297_000,
            PageSize::Letter => 279_400,
        }
    }

    /// The identifier by which this page size is requested.
    pub fn name(&self) -> (r: &'static str)
        ensures
            r@ == page_name(*self),
    {
        proof {
            reveal_strlit("a4");
            reveal_strlit("letter");
        }
        match self {
            PageSize::A4 => "a4",
            PageSize::Letter => "letter",
        }
    }

    /// Looks a page size up by its identifier.
    pub fn from_name(name: &str) -> (r: Result<PageSize, UnknownPageSize>)
        ensures
            match page_of_name(name@) {
                Some(p) => r == Ok::<PageSize, UnknownPageSize>(p),
                None => r is Err && r->Err_0.name@ == name@,
            },
    {
        let given = name.to_owned();
        if given == String::from_str("a4") {
            Ok(PageSize::A4)
        } else if given == String::from_str("letter") {
            Ok(PageSize::Letter)
        } else {
            Err(UnknownPageSize { name: given })
        }
    }
}

} // verus!
