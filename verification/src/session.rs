//! The commands that the editor's windows hand to the one worker that owns the
//! open image, and the small decisions round them: which commands follow from
//! what the user did, which image is selected next, and which crop an image is
//! opened with.
//!
//! The worker takes the commands one at a time, in the order in which they
//! were handed over, so that no two steps ever touch the image at once.

use crate::text::{has_text, spec_has_text};
use vstd::prelude::*;

verus! {

/// A command to the worker.
#[derive(Clone, Copy, Debug, PartialEq, Eq)]
pub enum DrawMessage {
    /// Open the selected image, with the crop that is stored for it.
    Open,
    /// Open the selected image with the crop's corner at this point of the
    /// original.
    ChangeCrop((u32, u32)),
    /// Draw layer and text on a copy of the working image.
    RedrawToBuffer,
    /// Hand the drawn picture to the window.
    Flush,
    /// Store the properties and export the card.
    Save,
    /// Make a copy of the image's files.
    Clone,
    /// Remove the image's files.
    Delete,
    /// Count the images with and without a quote.
    ShowImagesDetails,
    /// Ask whether the image is too small to be used.
    CheckImage,
}

/// What the user answers when asked whether unsaved changes are to be saved.
#[derive(Clone, Copy, Debug, PartialEq, Eq, Structural)]
pub enum SavePrompt {
    Save,
    Discard,
    Cancel,
}

/// The commands that follow an edit of a field, of the layer or of the
/// profile: the card is drawn again and shown.
pub open spec fn spec_after_edit() -> Seq<DrawMessage> {
    seq![DrawMessage::RedrawToBuffer, DrawMessage::Flush]
}

/// The commands that follow when another image is selected. Saved properties
/// need no question; unsaved ones are saved or dropped as the user answers,
/// and nothing happens where the user cancels.
pub open spec fn spec_after_selection(is_saved: bool, answer: SavePrompt) -> Seq<DrawMessage> {
    if is_saved {
        seq![DrawMessage::Open, DrawMessage::CheckImage]
    } else {
        match answer {
            SavePrompt::Save => seq![DrawMessage::Save, DrawMessage::Open, DrawMessage::CheckImage],
            SavePrompt::Discard => seq![DrawMessage::Open, DrawMessage::CheckImage],
            SavePrompt::Cancel => Seq::empty(),
        }
    }
}

/// The commands that follow when the user has the image cloned or deleted:
/// the step itself, then the image that is selected afterwards is opened and
/// checked.
pub open spec fn spec_after_file_step(step: DrawMessage) -> Seq<DrawMessage> {
    seq![step, DrawMessage::Open, DrawMessage::CheckImage]
}

/// The commands that follow an edit.
pub fn after_edit() -> (r: Vec<DrawMessage>)
    ensures
        r@ == spec_after_edit(),
{
    let mut out: Vec<DrawMessage> = Vec::new();
    out.push(DrawMessage::RedrawToBuffer);
    out.push(DrawMessage::Flush);
    assert(out@ =~= spec_after_edit());
    out
}

/// The commands that follow when another image is selected; `answer` is read
/// only where the properties are not saved.
pub fn after_selection(is_saved: bool, answer: SavePrompt) -> (r: Vec<DrawMessage>)
    ensures
        r@ == spec_after_selection(is_saved, answer),
{
    let mut out: Vec<DrawMessage> = Vec::new();
    if !is_saved {
        match answer {
            SavePrompt::Save => {
                out.push(DrawMessage::Save);
            },
            SavePrompt::Discard => {},
            SavePrompt::Cancel => {
                assert(out@ =~= spec_after_selection(is_saved, answer));
                return out;
            },
        }
    }
    out.push(DrawMessage::Open);
    out.push(DrawMessage::CheckImage);
    assert(out@ =~= spec_after_selection(is_saved, answer));
    out
}

/// The commands that follow when the image is cloned.
pub fn after_clone() -> (r: Vec<DrawMessage>)
    ensures
        r@ == spec_after_file_step(DrawMessage::Clone),
{
    let mut out: Vec<DrawMessage> = Vec::new();
    out.push(DrawMessage::Clone);
    out.push(DrawMessage::Open);
    out.push(DrawMessage::CheckImage);
    assert(out@ =~= spec_after_file_step(DrawMessage::Clone));
    out
}

/// The commands that follow when the image is deleted.
pub fn after_delete() -> (r: Vec<DrawMessage>)
    ensures
        r@ == spec_after_file_step(DrawMessage::Delete),
{
    let mut out: Vec<DrawMessage> = Vec::new();
    out.push(DrawMessage::Delete);
    out.push(DrawMessage::Open);
    out.push(DrawMessage::CheckImage);
    assert(out@ =~= spec_after_file_step(DrawMessage::Delete));
    out
}

/// The corner of the crop with which an image is opened: the corner that was
/// asked for, else the stored one; with neither, the crop is centred.
pub open spec fn spec_crop_corner(requested: Option<(u32, u32)>, stored: Option<(u32, u32)>) -> Option<
    (u32, u32),
> {
    match requested {
        Some(corner) => Some(corner),
        None => stored,
    }
}

/// The corner of the crop with which an image is opened, or nothing where
/// the crop is to be centred.
pub fn crop_corner(requested: Option<(u32, u32)>, stored: Option<(u32, u32)>) -> (r: Option<
    (u32, u32),
>)
    ensures
        r == spec_crop_corner(requested, stored),
{
    match requested {
        Some(corner) => Some(corner),
        None => stored,
    }
}

/// The image that is selected after the one at `selected` was removed and
/// `remaining` images are left: the image that took its place, or the new last
/// image where the last one was removed, or none where none is left.
pub open spec fn spec_selection_after_delete(selected: usize, remaining: usize) -> Option<usize> {
    if remaining == 0 {
        None
    } else if selected >= remaining {
        Some((remaining - 1) as usize)
    } else {
        Some(selected)
    }
}

/// The image that is selected after the one at `selected` was removed.
pub fn selection_after_delete(selected: usize, remaining: usize) -> (r: Option<usize>)
    ensures
        r == spec_selection_after_delete(selected, remaining),
        r is Some ==> r->0 < remaining,
{
    if remaining == 0 {
        None
    } else if selected >= remaining {
        Some(remaining - 1)
    } else {
        Some(selected)
    }
}

/// The image after the one at `selected` among `count` images; after the last
/// comes the first.
pub fn next_selection(selected: usize, count: usize) -> (r: usize)
    requires
        selected < count,
    ensures
        r == if selected == count - 1 {
            0
        } else {
            selected + 1
        },
        r < count,
{
    if selected == count - 1 {
        0
    } else {
        selected + 1
    }
}

/// The image before the one at `selected` among `count` images; before the
/// first comes the last.
pub fn previous_selection(selected: usize, count: usize) -> (r: usize)
    requires
        selected < count,
    ensures
        r == if selected == 0 {
            count - 1
        } else {
            selected - 1
        },
        r < count,
{
    if selected == 0 {
        count - 1
    } else {
        selected - 1
    }
}

/// How many of the stored quotes say something. An image without stored
/// properties, or without a quote in them, counts as one without.
pub open spec fn spec_with_quote(quotes: Seq<Option<String>>) -> nat
    decreases quotes.len(),
{
    if quotes.len() == 0 {
        0
    } else {
        let before = spec_with_quote(quotes.drop_last());
        match quotes.last() {
            Some(quote) => if spec_has_text(quote@) {
                before + 1
            } else {
                before
            },
            None => before,
        }
    }
}

/// The number of images with a quote that says something, and the number of
/// the others, given the stored quote of each image.
pub fn count_quotes(quotes: &Vec<Option<String>>) -> (r: (usize, usize))
    ensures
        r.0 == spec_with_quote(quotes@),
        r.0 + r.1 == quotes.len(),
{
    let mut with: usize = 0;
    let mut i: usize = 0;
    proof {
        assert(quotes@.take(0) =~= Seq::<Option<String>>::empty());
    }
    while i < quotes.len()
        invariant
            0 <= i <= quotes.len(),
            with == spec_with_quote(quotes@.take(i as int)),
            with <= i,
        decreases quotes.len() - i,
    {
        proof {
            let next = quotes@.take(i + 1);
            assert(next.drop_last() =~= quotes@.take(i as int));
            assert(next.last() == quotes[i as int]);
        }
        match &quotes[i] {
            Some(quote) => {
                if has_text(quote.as_str()) {
                    with = with + 1;
                }
            },
            None => {},
        }
        i = i + 1;
    }
    proof {
        assert(quotes@.take(quotes.len() as int) =~= quotes@);
    }
    (with, quotes.len() - with)
}

/// The colour of the button that shows the layer's colour: the layer's red,
/// green and blue. Black is shown with a trace of red, because buttons take
/// plain black for having no colour of their own.
pub open spec fn spec_button_color(rgba: Seq<u8>) -> (u8, u8, u8) {
    if rgba[0] == 0 && rgba[1] == 0 && rgba[2] == 0 {
        (1, 0, 0)
    } else {
        (rgba[0], rgba[1], rgba[2])
    }
}

/// The colour of the button that shows the layer's colour.
pub fn button_color(rgba: [u8; 4]) -> (r: (u8, u8, u8))
    ensures
        r == spec_button_color(rgba@),
{
    if rgba[0] == 0 && rgba[1] == 0 && rgba[2] == 0 {
        (1, 0, 0)
    } else {
        (rgba[0], rgba[1], rgba[2])
    }
}

} // verus!
