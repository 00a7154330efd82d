//! Text stand-ins for pictures: the caption shown in place of an image, and
//! the banner for the launcher's own name.

use vstd::prelude::*;
use crate::text::{decimal, decimal_text, lowercase_of, lowercased, owned, same_text, strings_view};

verus! {

/// The lines shown in place of an image.
#[derive(Debug, Clone, PartialEq, Eq)]
pub struct AsciiImage {
    pub lines: Vec<String>,
}

/// The caption for an image that would be drawn in a box of the given size.
pub open spec fn caption(max_width: nat, max_height: nat) -> Seq<Seq<char>> {
    seq![
        "Image preview ("@ + decimal(max_width) + " x "@ + decimal(max_height) + ")"@,
        "ASCII image conversion"@,
        "will be displayed here"@,
    ]
}

/// The banner that spells the launcher's name.
pub open spec fn banner() -> Seq<Seq<char>> {
    seq![
        "      _       _   _   "@,
        "   __| | ___ | |_| |_ "@,
        "  / _` |/ _ \\| __| __|"@,
        " | (_| | (_) | |_| |_ "@,
        "  \\__,_|\\___/ \\__|\\__|"@,
    ]
}

/// The art for a text whose lowercase form is `lowered`: the banner for the
/// launcher's name, in any mix of cases, and the text itself for any other.
pub open spec fn ascii_art(lowered: Seq<char>, text: Seq<char>) -> Seq<Seq<char>> {
    if lowered == "dott"@ {
        banner()
    } else {
        seq![text]
    }
}

impl AsciiImage {
    /// The stand-in for the image at `_path`: a caption that names the box
    /// it was asked to fit. The image itself is not read, and this never
    /// fails.
    pub fn from_file(_path: &str, max_width: usize, max_height: usize) -> (image: Result<
        AsciiImage,
        String,
    >)
        ensures
            image is Ok,
            strings_view(image->Ok_0.lines@) == caption(max_width as nat, max_height as nat),
    {
        let mut first = owned("Image preview (");
        first.append(decimal_text(max_width as u64).as_str());
        first.append(" x ");
        first.append(decimal_text(max_height as u64).as_str());
        first.append(")");
        let mut lines: Vec<String> = Vec::new();
        lines.push(first);
        lines.push(owned("ASCII image conversion"));
        lines.push(owned("will be displayed here"));
        proof {
            assert(strings_view(lines@) =~= caption(max_width as nat, max_height as nat));
        }
        Ok(AsciiImage { lines })
    }

    /// The lines, top to bottom.
    pub fn as_lines(&self) -> (lines: &[String])
        ensures
            lines@ == self.lines@,
    {
        self.lines.as_slice()
    }
}

/// The art for `text`, given its lowercase form.
pub fn ascii_art_for(lowered: &str, text: &str) -> (art: Vec<String>)
    ensures
        strings_view(art@) == ascii_art(lowered@, text@),
{
    let mut art: Vec<String> = Vec::new();
    if same_text(lowered, "dott") {
        art.push(owned("      _       _   _   "));
        art.push(owned("   __| | ___ | |_| |_ "));
        art.push(owned("  / _` |/ _ \\| __| __|"));
        art.push(owned(" | (_| | (_) | |_| |_ "));
        art.push(owned("  \\__,_|\\___/ \\__|\\__|"));
    } else {
        art.push(owned(text));
    }
    proof {
        assert(strings_view(art@) =~= ascii_art(lowered@, text@));
    }
    art
}

/// The art for `text`: the banner where the text is the launcher's name in
/// any mix of cases, else the text on a line of its own.
pub fn text_to_ascii_art(text: &str) -> (art: Vec<String>)
    ensures
        strings_view(art@) == ascii_art(lowercase_of(text@), text@),
{
    let lowered = lowercased(text);
    ascii_art_for(lowered.as_str(), text)
}

} // verus!
