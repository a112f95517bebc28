//! Finding the function that covers an address.

pub mod fixed;

use vstd::prelude::*;
use crate::reader::ByteOrder;
use crate::unwinder::find_fde::fixed::{Image, StaticFinder};
use crate::unwinder::table::{BaseAddresses, FrameDescription};

verus! {

/// A frame table.
#[derive(Clone, Copy)]
pub struct EhFrame<'a> {
    /// The bytes of the table.
    pub section: &'a [u8],
    /// The byte order of the table.
    pub order: ByteOrder,
}

/// A function, and the frame table that describes it.
#[derive(Clone, Copy)]
pub struct FDESearchResult<'a> {
    /// What the table says of the function.
    pub fde: FrameDescription,
    /// What the table's pointers are relative to.
    pub bases: BaseAddresses,
    /// The table.
    pub eh_frame: EhFrame<'a>,
}

/// A function, and the frame table that describes it, by value.
#[verifier::ext_equal]
pub struct Found {
    pub fde: FrameDescription,
    pub bases: BaseAddresses,
    pub section: Seq<u8>,
    pub order: ByteOrder,
}

impl<'a> View for FDESearchResult<'a> {
    type V = Found;

    open spec fn view(&self) -> Found {
        Found {
            fde: self.fde,
            bases: self.bases,
            section: self.eh_frame.section@,
            order: self.eh_frame.order,
        }
    }
}

/// The result of a search, by value.
pub open spec fn found_view(r: Option<FDESearchResult>) -> Option<Found> {
    match r {
        Some(result) => Some(result@),
        None => None,
    }
}

/// A way to find the function that covers an address.
pub trait FDEFinder<'a> {
    /// What it finds for `pc`.
    spec fn finds(&self, pc: usize) -> Option<Found>;

    /// The function that covers `pc`.
    fn find_fde(&self, pc: usize) -> (r: Option<FDESearchResult<'a>>)
        ensures
            found_view(r) == self.finds(pc),
            r matches Some(result) ==> result.fde.covers(pc as u64),
    ;
}

/// The finder that the unwinder asks.
#[derive(Clone, Copy)]
pub struct GlobalFinder<'a> {
    /// The finder for the image that is running.
    pub fixed: StaticFinder<'a>,
}

/// What the first finder that finds anything has found, where `earlier` is what
/// those before the last have found and `last` what the last one finds.
pub open spec fn first_found(earlier: Option<Found>, last: Option<Found>) -> Option<Found> {
    if earlier is Some {
        earlier
    } else {
        last
    }
}

impl<'a> GlobalFinder<'a> {
    /// The function that covers `pc`, where the finders that are asked before have
    /// found `earlier`.
    pub fn find_fde_after(&self, earlier: Option<FDESearchResult<'a>>, pc: usize) -> (r: Option<
        FDESearchResult<'a>,
    >)
        ensures
            found_view(r) == first_found(found_view(earlier), self.fixed.finds(pc)),
            earlier is None ==> (r matches Some(result) ==> result.fde.covers(pc as u64)),
    {
        if let Some(result) = earlier {
            return Some(result);
        }
        self.fixed.find_fde(pc)
    }
}

impl<'a> FDEFinder<'a> for GlobalFinder<'a> {
    open spec fn finds(&self, pc: usize) -> Option<Found> {
        first_found(None, self.fixed.finds(pc))
    }

    fn find_fde(&self, pc: usize) -> (r: Option<FDESearchResult<'a>>) {
        self.find_fde_after(None, pc)
    }
}

/// The finder for `image`.
pub fn get_finder<'a>(image: Image<'a>) -> (r: GlobalFinder<'a>)
    ensures
        r.fixed == (StaticFinder { image }),
{
    GlobalFinder { fixed: fixed::get_finder(image) }
}

/// The finders are asked in turn: what an earlier one has found is taken, and where it has
/// found nothing the last one decides.
pub proof fn law_first_finder_wins(earlier: Found, last: Option<Found>, finder: GlobalFinder, pc: usize)
    ensures
        first_found(Some(earlier), last) == Some(earlier),
        first_found(None, last) == last,
        finder.finds(pc) == finder.fixed.finds(pc),
{
}

/// A function covers the addresses from its first one on, up to the one behind its last.
pub proof fn law_functions_cover_their_addresses(fde: FrameDescription, pc: u64)
    ensures
        pc < fde.initial_address ==> !fde.covers(pc),
        pc >= fde.end_address ==> !fde.covers(pc),
        fde.initial_address <= pc && pc < fde.end_address ==> fde.covers(pc),
{
}

} // verus!
