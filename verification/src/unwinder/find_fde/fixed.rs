//! Finding functions in the frame table of one image that is known from the start.

use vstd::prelude::*;
use crate::reader::{word_size, ByteOrder};
use crate::unwinder::find_fde::{EhFrame, FDEFinder, FDESearchResult, Found};
use crate::unwinder::table::{fde_for, fde_for_address, BaseAddresses};

verus! {

/// Where an image stands in memory, and its frame table.
#[derive(Clone, Copy)]
pub struct Image<'a> {
    /// The first address of the image.
    pub text_start: usize,
    /// The address behind its text section.
    pub text_end: usize,
    /// The address of its frame table.
    pub eh_frame: usize,
    /// The bytes of its frame table.
    pub section: &'a [u8],
    /// Its byte order.
    pub order: ByteOrder,
}

/// The finder for one image.
#[derive(Clone, Copy)]
pub struct StaticFinder<'a> {
    pub image: Image<'a>,
}

/// The finder for `image`.
pub fn get_finder<'a>(image: Image<'a>) -> (r: StaticFinder<'a>)
    ensures
        r == (StaticFinder { image }),
{
    StaticFinder { image }
}

impl<'a> Image<'a> {
    /// Whether `pc` is an address in the image's text.
    pub open spec fn covers(self, pc: usize) -> bool {
        self.text_start <= pc < self.text_end
    }

    /// What the pointers of the frame table are relative to.
    pub open spec fn bases(self) -> BaseAddresses {
        BaseAddresses {
            section: Some(self.eh_frame as u64),
            text: Some(self.text_start as u64),
            data: None,
        }
    }
}

impl<'a> FDEFinder<'a> for StaticFinder<'a> {
    open spec fn finds(&self, pc: usize) -> Option<Found> {
        let image = self.image;
        if image.covers(pc) {
            match fde_for(
                image.section@,
                image.order,
                word_size(),
                image.bases(),
                pc as u64,
            ) {
                Some(fde) => Some(
                    Found {
                        fde,
                        bases: image.bases(),
                        section: image.section@,
                        order: image.order,
                    },
                ),
                None => None,
            }
        } else {
            None
        }
    }

    fn find_fde(&self, pc: usize) -> (r: Option<FDESearchResult<'a>>) {
        let image = self.image;
        if !(image.text_start <= pc && pc < image.text_end) {
            return None;
        }
        let bases = BaseAddresses {
            section: Some(image.eh_frame as u64),
            text: Some(image.text_start as u64),
            data: None,
        };
        let BaseAddresses { section, text, data } = bases;
        match fde_for_address(image.section, image.order, section, text, data, pc as u64) {
            Ok(fde) => Some(
                FDESearchResult {
                    fde,
                    bases,
                    eh_frame: EhFrame { section: image.section, order: image.order },
                },
            ),
            Err(_) => None,
        }
    }
}

/// A function is found for addresses in the image's text only, and then all that is
/// found with it belongs to the image.
pub proof fn law_found_in_text(finder: StaticFinder, pc: usize)
    ensures
        finder.finds(pc) matches Some(found) ==> {
            &&& finder.image.covers(pc)
            &&& found.bases == finder.image.bases()
            &&& found.section == finder.image.section@
        },
{
}

/// For an address in the image's text the function is the one that the image's frame table
/// has for that very address, with pointers relative to where the table and the text start.
/// Where the table has none, or the address is elsewhere, nothing is found.
pub proof fn law_functions_are_found_by_the_table(finder: StaticFinder, pc: usize)
    ensures
        ({
            let image = finder.image;
            let bases = BaseAddresses {
                section: Some(image.eh_frame as u64),
                text: Some(image.text_start as u64),
                data: None,
            };
            let fde = fde_for(image.section@, image.order, word_size(), bases, pc as u64);
            &&& pc < image.text_start ==> finder.finds(pc) is None
            &&& pc >= image.text_end ==> finder.finds(pc) is None
            &&& fde is None ==> finder.finds(pc) is None
            &&& image.text_start <= pc < image.text_end ==> (fde matches Some(fde)
                ==> finder.finds(pc) == Some(
                Found { fde, bases, section: image.section@, order: image.order },
            ))
        }),
{
}

} // verus!
