//! Progress of preparing a source's artwork.

use vstd::prelude::*;

use crate::digest::{first_number, first_u64};

verus! {

/// The revision of a source's artwork: the start of a digest.
pub fn digest_revision(digest: &[u8; 32]) -> (result: u64)
    ensures
        result == first_number(digest@),
{
    first_u64(digest)
}

/// The revision at which the covers of a source are prepared, and that is given back at the end;
/// none where they are complete already.
pub fn prepare_database_source(complete: bool, digest: &[u8; 32]) -> (result: Option<u64>)
    ensures
        match result {
            Some(revision) => !complete && revision == first_number(digest@),
            None => complete,
        },
{
    if complete {
        None
    } else {
        Some(digest_revision(digest))
    }
}

/// The PNG file that the image crate makes of pixels, or what it says of them.
pub uninterp spec fn png_encoded(rgba: Seq<u8>, width: u32, height: u32) -> Result<
    Seq<u8>,
    Seq<char>,
>;

/// `image::codecs::png::PngEncoder::write_image` for pixels of four bytes: the file is a function of
/// the pixels and of the size, which must fit them.
#[verifier::external_body]
fn write_png(rgba: &[u8], width: u32, height: u32) -> (result: Result<Vec<u8>, String>)
    requires
        rgba@.len() == 4 * width * height,
    ensures
        match result {
            Ok(bytes) => png_encoded(rgba@, width, height) == Ok::<Seq<u8>, Seq<char>>(bytes@),
            Err(error) => png_encoded(rgba@, width, height) == Err::<Seq<u8>, Seq<char>>(error@),
        },
{
    let mut bytes = Vec::new();
    let encoder = image::codecs::png::PngEncoder::new(&mut bytes);
    let color = image::ExtendedColorType::Rgba8;
    image::ImageEncoder::write_image(encoder, rgba, width, height, color).map_err(
        |error| error.to_string(),
    )?;
    Ok(bytes)
}

/// A cover as it is sent to browsers.
pub fn png(rgba: &[u8], width: u32, height: u32) -> (result: Result<Vec<u8>, String>)
    requires
        rgba@.len() == 4 * width * height,
    ensures
        match result {
            Ok(bytes) => png_encoded(rgba@, width, height) == Ok::<Seq<u8>, Seq<char>>(bytes@),
            Err(error) => png_encoded(rgba@, width, height) == Err::<Seq<u8>, Seq<char>>(error@),
        },
{
    write_png(rgba, width, height)
}

/// What became of one page of covers.
#[derive(Clone, Copy, Debug, PartialEq, Eq, Structural)]
pub struct PageSummary {
    pub total: usize,
    pub cached: usize,
    pub missing: usize,
}

/// How far a preparation has come.
#[derive(Clone, Copy, Debug, PartialEq, Eq, Structural)]
pub struct Preparation {
    pub completed: usize,
    /// Something had to be fetched, so that progress is shown from then on.
    pub visible: bool,
}

/// A sum that stays at the greatest number.
pub open spec fn capped_sum(a: usize, b: usize) -> usize {
    if a + b > usize::MAX {
        usize::MAX
    } else {
        (a + b) as usize
    }
}

/// A preparation after one more page. Progress is shown once a page held covers that were neither at
/// hand nor missing for good.
pub open spec fn advanced(state: Preparation, summary: PageSummary) -> Preparation {
    Preparation {
        completed: capped_sum(state.completed, summary.total),
        visible: state.visible || summary.total > capped_sum(summary.cached, summary.missing),
    }
}

/// A preparation after its pages.
pub open spec fn prepared(pages: Seq<PageSummary>) -> Preparation
    decreases pages.len(),
{
    if pages.len() == 0 {
        Preparation { completed: 0, visible: false }
    } else {
        advanced(prepared(pages.drop_last()), pages.last())
    }
}

impl Preparation {
    pub fn new() -> (result: Self)
        ensures
            result == prepared(seq![]),
    {
        Preparation { completed: 0, visible: false }
    }

    /// Takes in a page. The number of covers that are ready is reported where progress is shown.
    pub fn page(&mut self, summary: PageSummary) -> (report: Option<usize>)
        ensures
            *final(self) == advanced(*old(self), summary),
            report == if final(self).visible {
                Some(final(self).completed)
            } else {
                None
            },
    {
        self.completed = self.completed.saturating_add(summary.total);
        if summary.total > summary.cached.saturating_add(summary.missing) {
            self.visible = true;
        }
        if self.visible {
            Some(self.completed)
        } else {
            None
        }
    }
}

/// A preparation that finds everything at hand, or nothing to fetch, shows no progress at all.
pub proof fn nothing_to_fetch_is_silent(pages: Seq<PageSummary>)
    requires
        forall|i: int|
            0 <= i < pages.len() ==> (#[trigger] pages[i]).total <= capped_sum(
                pages[i].cached,
                pages[i].missing,
            ),
    ensures
        !prepared(pages).visible,
    decreases pages.len(),
{
    if pages.len() > 0 {
        assert forall|i: int| 0 <= i < pages.drop_last().len() implies (
        #[trigger] pages.drop_last()[i]).total <= capped_sum(
            pages.drop_last()[i].cached,
            pages.drop_last()[i].missing,
        ) by {
            assert(pages[i] == pages.drop_last()[i]);
        }
        nothing_to_fetch_is_silent(pages.drop_last());
        assert(pages[pages.len() - 1] == pages.last());
    }
}

} // verus!
