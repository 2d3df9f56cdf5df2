//! Normalizes a remote tool reply — a list of heterogeneous content parts —
//! into the single content value the calling agent understands. Text parts
//! are joined with newlines; the first PNG image wins; everything
//! unsupported degrades to descriptive text or to a diagnostic, never to a
//! failure.

use vstd::prelude::*;
use vstd::string::StringExecFns;

verus! {

/// One element of a remote invocation's reply.
#[derive(Debug, Clone, PartialEq)]
pub enum ResponsePart {
    /// A piece of text.
    Text(String),
    /// An image payload with its declared MIME type.
    Image { data: Vec<u8>, mime_type: String },
    /// An opaque resource; its structure is not interpreted here.
    Resource,
}

/// An image delivered to the agent: the payload of the first PNG part, with
/// size metadata left zero (no decoding happens here).
#[derive(Debug, Clone, PartialEq)]
pub struct ImageContent {
    pub data: Vec<u8>,
    pub width: u64,
    pub height: u64,
}

/// The single content value delivered to the agent: exactly one variant.
#[derive(Debug, Clone, PartialEq)]
pub enum ToolContent {
    Text(String),
    Image(ImageContent),
}

/// A non-fatal anomaly met while normalizing; recorded, never an error.
#[derive(Debug, Clone, Copy, PartialEq, Eq, Structural)]
pub enum Diagnostic {
    /// An image beyond the first captured PNG was dropped.
    ExtraImageDiscarded,
    /// An image of a type other than PNG degraded to a placeholder line.
    UnsupportedImageType,
    /// A resource part was ignored.
    ResourceSkipped,
}

/// The normalizer's outcome: one content value, and the anomalies met.
#[derive(Debug, Clone, PartialEq)]
pub struct NormalizedResponse {
    pub content: ToolContent,
    pub diagnostics: Vec<Diagnostic>,
}

/// The one image type that is kept as image content.
pub open spec fn is_png_mime(mime: Seq<char>) -> bool {
    mime == "image/png"@
}

/// The text line that stands in for an image of an unsupported type.
pub open spec fn placeholder_line(mime: Seq<char>) -> Seq<char> {
    "Tool returned an image of type "@ + mime + " (content not displayed in this view)"@
}

/// The payload of `part`, where `part` is a PNG image.
pub open spec fn png_payload(part: ResponsePart) -> Option<Seq<u8>> {
    match part {
        ResponsePart::Image { data, mime_type } => if is_png_mime(mime_type@) {
            Some(data@)
        } else {
            None
        },
        _ => None,
    }
}

/// The payload of the first PNG image among `parts`, if any.
pub open spec fn captured_image_spec(parts: Seq<ResponsePart>) -> Option<Seq<u8>>
    decreases parts.len(),
{
    if parts.len() == 0 {
        None
    } else if captured_image_spec(parts.drop_last()) is Some {
        captured_image_spec(parts.drop_last())
    } else {
        png_payload(parts.last())
    }
}

/// What one part contributes to the text buffer: its text, a placeholder
/// line for an image of an unsupported type, nothing otherwise.
pub open spec fn line_contribution(part: ResponsePart) -> Seq<Seq<char>> {
    match part {
        ResponsePart::Text(t) => seq![t@],
        ResponsePart::Image { data, mime_type } => if is_png_mime(mime_type@) {
            Seq::empty()
        } else {
            seq![placeholder_line(mime_type@)]
        },
        ResponsePart::Resource => Seq::empty(),
    }
}

/// The lines of the text buffer accumulated over `parts`, in order.
pub open spec fn text_lines_spec(parts: Seq<ResponsePart>) -> Seq<Seq<char>>
    decreases parts.len(),
{
    if parts.len() == 0 {
        Seq::empty()
    } else {
        text_lines_spec(parts.drop_last()) + line_contribution(parts.last())
    }
}

/// The diagnostics one part raises, given whether a PNG was already
/// captured before it.
pub open spec fn diagnostic_contribution(part: ResponsePart, already_captured: bool) -> Seq<
    Diagnostic,
> {
    match part {
        ResponsePart::Text(_) => Seq::empty(),
        ResponsePart::Image { data, mime_type } => if is_png_mime(mime_type@) {
            if already_captured {
                seq![Diagnostic::ExtraImageDiscarded]
            } else {
                Seq::empty()
            }
        } else {
            seq![Diagnostic::UnsupportedImageType]
        },
        ResponsePart::Resource => seq![Diagnostic::ResourceSkipped],
    }
}

/// The diagnostics raised over `parts`, in order.
pub open spec fn diagnostics_spec(parts: Seq<ResponsePart>) -> Seq<Diagnostic>
    decreases parts.len(),
{
    if parts.len() == 0 {
        Seq::empty()
    } else {
        diagnostics_spec(parts.drop_last()) + diagnostic_contribution(
            parts.last(),
            captured_image_spec(parts.drop_last()) is Some,
        )
    }
}

/// The lines joined with single newlines; empty lines stay empty.
pub open spec fn join_lines(lines: Seq<Seq<char>>) -> Seq<char>
    decreases lines.len(),
{
    if lines.len() == 0 {
        Seq::empty()
    } else if lines.len() == 1 {
        lines[0]
    } else {
        join_lines(lines.drop_last()) + "\n"@ + lines.last()
    }
}

/// The views of a run of text lines.
pub open spec fn line_views(lines: Seq<String>) -> Seq<Seq<char>> {
    lines.map_values(|s: String| s@)
}

/// What normalization delivers for `parts`: the first PNG as image content
/// if there is one, else the joined text buffer (empty text for an empty
/// reply, not an error).
pub open spec fn normalized_content(parts: Seq<ResponsePart>, content: ToolContent) -> bool {
    match captured_image_spec(parts) {
        Some(data) => {
            &&& content matches ToolContent::Image(img)
            &&& img.data@ == data
            &&& img.width == 0
            &&& img.height == 0
        },
        None => {
            &&& content matches ToolContent::Text(t)
            &&& t@ == join_lines(text_lines_spec(parts))
        },
    }
}

/// How the image captured so far relates to the parts walked so far.
pub open spec fn captured_matches(parts: Seq<ResponsePart>, captured: Option<ImageContent>) -> bool {
    match captured {
        Some(img) => {
            &&& captured_image_spec(parts) == Some(img.data@)
            &&& img.width == 0
            &&& img.height == 0
        },
        None => captured_image_spec(parts) is None,
    }
}

/// Whether `mime` names the PNG image type exactly.
fn mime_is_png(mime: &String) -> (r: bool)
    ensures
        r == is_png_mime(mime@),
{
    let png: String = "image/png".to_owned();
    *mime == png
}

/// The placeholder line naming an unsupported image type.
fn placeholder_for(mime: &String) -> (r: String)
    ensures
        r@ == placeholder_line(mime@),
{
    let mut line: String = "Tool returned an image of type ".to_owned();
    line.append(mime.as_str());
    line.append(" (content not displayed in this view)");
    line
}

/// Copies an image payload out of a borrowed reply part.
fn copy_bytes(src: &Vec<u8>) -> (r: Vec<u8>)
    ensures
        r@ == src@,
{
    let mut out: Vec<u8> = Vec::new();
    let n: usize = src.len();
    for i in 0..n
        invariant
            n == src.len(),
            out@ == src@.take(i as int),
    {
        out.push(src[i]);
        proof {
            assert(src@.take(i + 1) =~= src@.take(i as int).push(src@[i as int]));
        }
    }
    proof {
        assert(src@.take(n as int) =~= src@);
    }
    out
}

/// Joins accumulated lines with single newlines.
fn join_with_newlines(lines: &Vec<String>) -> (r: String)
    ensures
        r@ == join_lines(line_views(lines@)),
{
    let mut out = String::new();
    let n: usize = lines.len();
    for i in 0..n
        invariant
            n == lines.len(),
            out@ == join_lines(line_views(lines@).take(i as int)),
    {
        if i > 0 {
            out.append("\n");
        }
        out.append(lines[i].as_str());
        proof {
            let m = line_views(lines@);
            assert(m.take(i + 1).drop_last() =~= m.take(i as int));
            assert(m.take(i + 1).last() == m[i as int]);
            assert(m[i as int] == lines@[i as int]@);
            if i == 0 {
                assert(out@ =~= m.take(i + 1)[0]);
            }
        }
    }
    proof {
        assert(line_views(lines@).take(n as int) =~= line_views(lines@));
    }
    out
}

/// Normalizes the reply's parts into one content value, recording what was
/// dropped or degraded on the way.
pub fn normalize(parts: &Vec<ResponsePart>) -> (r: NormalizedResponse)
    ensures
        normalized_content(parts@, r.content),
        r.diagnostics@ == diagnostics_spec(parts@),
{
    let mut captured: Option<ImageContent> = None;
    let mut lines: Vec<String> = Vec::new();
    let mut diags: Vec<Diagnostic> = Vec::new();
    let n: usize = parts.len();
    proof {
        assert(parts@.take(0) =~= Seq::<ResponsePart>::empty());
    }
    for i in 0..n
        invariant
            n == parts.len(),
            captured_matches(parts@.take(i as int), captured),
            line_views(lines@) == text_lines_spec(parts@.take(i as int)),
            diags@ == diagnostics_spec(parts@.take(i as int)),
    {
        proof {
            assert(parts@.take(i + 1).drop_last() =~= parts@.take(i as int));
            assert(parts@.take(i + 1).last() == parts@[i as int]);
        }
        let ghost old_lines = lines@;
        let ghost old_diags = diags@;
        match &parts[i] {
            ResponsePart::Text(t) => {
                lines.push(t.clone());
                proof {
                    assert(line_views(lines@) =~= line_views(old_lines) + seq![t@]);
                }
            },
            ResponsePart::Image { data, mime_type } => {
                if mime_is_png(mime_type) {
                    if captured.is_none() {
                        captured = Some(
                            ImageContent { data: copy_bytes(data), width: 0, height: 0 },
                        );
                    } else {
                        diags.push(Diagnostic::ExtraImageDiscarded);
                        proof {
                            assert(diags@ =~= old_diags + seq![Diagnostic::ExtraImageDiscarded]);
                        }
                    }
                } else {
                    diags.push(Diagnostic::UnsupportedImageType);
                    lines.push(placeholder_for(mime_type));
                    proof {
                        assert(diags@ =~= old_diags + seq![Diagnostic::UnsupportedImageType]);
                        assert(line_views(lines@) =~= line_views(old_lines) + seq![
                            placeholder_line(mime_type@),
                        ]);
                    }
                }
            },
            ResponsePart::Resource => {
                diags.push(Diagnostic::ResourceSkipped);
                proof {
                    assert(diags@ =~= old_diags + seq![Diagnostic::ResourceSkipped]);
                }
            },
        }
    }
    proof {
        assert(parts@.take(n as int) =~= parts@);
    }
    let content = match captured {
        Some(img) => ToolContent::Image(img),
        None => ToolContent::Text(join_with_newlines(&lines)),
    };
    NormalizedResponse { content, diagnostics: diags }
}

} // verus!
