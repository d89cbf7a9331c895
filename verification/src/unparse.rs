//! From rich text back to the markup that users write.

use vstd::prelude::*;
use crate::entities::{
    span_views, MessageEntity, MessageEntityKind, RichText, Span, SpanKind, StringWithEntities,
};
use crate::text::{encode_utf16, utf16, utf16_lossy};

verus! {

/// A piece of markup and the code unit it goes in front of.
pub struct Tag {
    pub marker: Seq<char>,
    pub at: nat,
}

/// The markup that opens and closes a span of the given kind. A quote is
/// opened and not closed; a link and the kinds without markup have none.
pub open spec fn markers(kind: SpanKind) -> Option<(Seq<char>, Seq<char>)> {
    match kind {
        SpanKind::Bold => Some(("**"@, "**"@)),
        SpanKind::Italic => Some(("_"@, "_"@)),
        SpanKind::Strikethrough => Some(("~~"@, "~~"@)),
        SpanKind::Underline => Some(("__"@, "__"@)),
        SpanKind::Code => Some(("``"@, "``"@)),
        SpanKind::Pre { .. } => Some(("```"@, "```"@)),
        SpanKind::Blockquote => Some(("> "@, ""@)),
        SpanKind::Spoiler => Some(("||"@, "||"@)),
        _ => None,
    }
}

/// The tags of one span: what opens it, in front of its first code unit,
/// and what closes it, behind its last.
pub open spec fn span_tags(span: Span) -> Seq<Tag> {
    match markers(span.kind) {
        Some((open, close)) => if close.len() == 0 {
            seq![Tag { marker: open, at: span.offset }]
        } else {
            seq![
                Tag { marker: open, at: span.offset },
                Tag { marker: close, at: span.offset + span.length },
            ]
        },
        None => Seq::empty(),
    }
}

/// The tags of all spans, span by span.
pub open spec fn all_tags(spans: Seq<Span>) -> Seq<Tag>
    decreases spans.len(),
{
    if spans.len() == 0 {
        Seq::empty()
    } else {
        all_tags(spans.drop_last()) + span_tags(spans.last())
    }
}

/// The markup that goes in front of code unit `at`: the markers of the
/// tags placed there, in the order of the tags.
pub open spec fn markup_at(tags: Seq<Tag>, at: nat) -> Seq<char>
    decreases tags.len(),
{
    if tags.len() == 0 {
        Seq::empty()
    } else if tags.last().at == at {
        markup_at(tags.drop_last(), at) + tags.last().marker
    } else {
        markup_at(tags.drop_last(), at)
    }
}

/// The first `upto` code units of the text, each behind the markup that
/// goes in front of it.
pub open spec fn woven(text: Seq<u16>, tags: Seq<Tag>, upto: nat) -> Seq<u16>
    decreases upto,
{
    if upto == 0 {
        Seq::empty()
    } else {
        woven(text, tags, (upto - 1) as nat) + utf16(markup_at(tags, (upto - 1) as nat)).push(
            text[upto - 1],
        )
    }
}

/// The text with the markup of its spans put in: every code unit behind
/// the markup that goes in front of it, and at the end the markup that
/// goes behind the last.
pub open spec fn marked_up(rich: RichText) -> Seq<u16> {
    let tags = all_tags(rich.spans);
    woven(rich.text, tags, rich.text.len()) + utf16(markup_at(tags, rich.text.len()))
}

/// Calls `String::from_utf16_lossy`: the code units are decoded, and each
/// code unit that belongs to no character gives U+FFFD.
#[verifier::external_body]
fn decode_utf16_lossy(units: &Vec<u16>) -> (out: String)
    ensures
        out@ == utf16_lossy(units@),
{
    String::from_utf16_lossy(units)
}

impl StringWithEntities {
    /// The text as a string.
    pub fn to_text(&self) -> (out: String)
        ensures
            out@ == utf16_lossy(self@.text),
    {
        decode_utf16_lossy(&self.0)
    }

    /// Tells whether every span lies within the text.
    pub fn is_well_formed(&self) -> (out: bool)
        ensures
            out == self@.wf(),
    {
        let total = self.0.len();
        let mut i: usize = 0;
        while i < self.1.len()
            invariant
                0 <= i <= self.1.len(),
                total == self@.text.len(),
                forall|k: int| 0 <= k < i ==> (#[trigger] self@.spans[k]).within(total as nat),
            decreases self.1.len() - i,
        {
            let e = &self.1[i];
            assert(self@.spans[i as int] == e@);
            if e.offset > total || e.length > total - e.offset {
                assert(!self@.spans[i as int].within(self@.text.len()));
                return false;
            }
            i += 1;
        }
        true
    }
}

/// A tag as the program holds it.
struct Marker {
    text: &'static str,
    at: usize,
}

impl View for Marker {
    type V = Tag;

    closed spec fn view(&self) -> Tag {
        Tag { marker: self.text@, at: self.at as nat }
    }
}

spec fn marker_views(markers: Seq<Marker>) -> Seq<Tag> {
    Seq::new(markers.len(), |i: int| markers[i]@)
}

fn kind_markers(kind: &MessageEntityKind) -> (out: Option<(&'static str, &'static str)>)
    ensures
        match out {
            Some((open, close)) => markers(kind@) == Some((open@, close@)),
            None => markers(kind@) is None,
        },
{
    match kind {
        MessageEntityKind::Bold => Some(("**", "**")),
        MessageEntityKind::Italic => Some(("_", "_")),
        MessageEntityKind::Strikethrough => Some(("~~", "~~")),
        MessageEntityKind::Underline => Some(("__", "__")),
        MessageEntityKind::Code => Some(("``", "``")),
        MessageEntityKind::Pre { .. } => Some(("```", "```")),
        MessageEntityKind::Blockquote => Some(("> ", "")),
        MessageEntityKind::Spoiler => Some(("||", "||")),
        _ => None,
    }
}

fn collect_markers(text: &StringWithEntities) -> (out: Vec<Marker>)
    requires
        text@.wf(),
    ensures
        marker_views(out@) == all_tags(text@.spans),
{
    let mut out: Vec<Marker> = Vec::new();
    let mut i: usize = 0;
    assert(marker_views(out@) =~= all_tags(text@.spans.take(0)));
    while i < text.1.len()
        invariant
            0 <= i <= text.1.len(),
            text@.wf(),
            marker_views(out@) == all_tags(text@.spans.take(i as int)),
        decreases text.1.len() - i,
    {
        let entity = &text.1[i];
        let total = text.0.len();
        proof {
            let spans = text@.spans;
            assert(spans[i as int] == entity@);
            assert(entity.offset + entity.length <= total) by {
                assert(spans[i as int].within(text@.text.len()));
            }
            assert(spans.take(i + 1).drop_last() =~= spans.take(i as int));
            assert(spans.take(i + 1).last() == entity@);
            assert(spans[i as int].within(text@.text.len()));
        }
        let ghost before = marker_views(out@);
        match kind_markers(&entity.kind) {
            Some((open, close)) => {
                out.push(Marker { text: open, at: entity.offset });
                if !close.is_empty() {
                    out.push(Marker { text: close, at: entity.offset + entity.length });
                }
            },
            None => {},
        }
        assert(marker_views(out@) =~= before + span_tags(entity@));
        i += 1;
    }
    assert(text@.spans.take(text.1@.len() as int) =~= text@.spans);
    out
}

fn push_markup(out: &mut Vec<u16>, markers: &Vec<Marker>, at: usize)
    ensures
        final(out)@ == old(out)@ + utf16(markup_at(marker_views(markers@), at as nat)),
{
    let mut k: usize = 0;
    let ghost tags = marker_views(markers@);
    assert(tags.take(0) =~= Seq::<Tag>::empty());
    assert(utf16(Seq::<char>::empty()) =~= Seq::<u16>::empty());
    assert(out@ =~= old(out)@ + utf16(markup_at(tags.take(0), at as nat)));
    while k < markers.len()
        invariant
            0 <= k <= markers.len(),
            tags == marker_views(markers@),
            out@ == old(out)@ + utf16(markup_at(tags.take(k as int), at as nat)),
        decreases markers.len() - k,
    {
        proof {
            assert(tags.take(k + 1).drop_last() =~= tags.take(k as int));
            assert(tags.take(k + 1).last() == markers@[k as int]@);
        }
        if markers[k].at == at {
            let mut units = encode_utf16(markers[k].text);
            proof {
                crate::text::utf16_of_concatenation(
                    markup_at(tags.take(k as int), at as nat),
                    markers@[k as int].text@,
                );
            }
            out.append(&mut units);
        }
        k += 1;
    }
    assert(tags.take(markers@.len() as int) =~= tags);
}

/// Puts the markup of the spans into the text.
pub fn unparse_units(text: &StringWithEntities) -> (out: Vec<u16>)
    requires
        text@.wf(),
    ensures
        out@ == marked_up(text@),
{
    let markers = collect_markers(text);
    let ghost tags = all_tags(text@.spans);
    let mut out: Vec<u16> = Vec::new();
    let mut at: usize = 0;
    while at < text.0.len()
        invariant
            0 <= at <= text.0.len(),
            marker_views(markers@) == tags,
            out@ == woven(text@.text, tags, at as nat),
        decreases text.0.len() - at,
    {
        push_markup(&mut out, &markers, at);
        out.push(text.0[at]);
        at += 1;
    }
    push_markup(&mut out, &markers, at);
    out
}

/// The markup of a rich text as a string.
pub open spec fn unparsed(rich: RichText) -> Seq<char> {
    utf16_lossy(marked_up(rich))
}

/// Writes a rich text as markup.
pub fn unparse_entities_impl(text: StringWithEntities) -> (out: String)
    requires
        text@.wf(),
    ensures
        out@ == unparsed(text@),
{
    let units = unparse_units(&text);
    decode_utf16_lossy(&units)
}

/// Writes a text and the spans that format it as markup.
pub fn unparse_entities(text: &str, entities: Vec<MessageEntity>) -> (out: String)
    requires
        (RichText { text: utf16(text@), spans: span_views(entities@) }).wf(),
    ensures
        out@ == unparsed(RichText { text: utf16(text@), spans: span_views(entities@) }),
{
    unparse_entities_impl(StringWithEntities(encode_utf16(text), entities))
}

proof fn lemma_woven_without_tags(text: Seq<u16>, upto: nat)
    requires
        upto <= text.len(),
    ensures
        woven(text, Seq::empty(), upto) == text.take(upto as int),
    decreases upto,
{
    if upto > 0 {
        lemma_woven_without_tags(text, (upto - 1) as nat);
        assert(utf16(Seq::<char>::empty()) =~= Seq::<u16>::empty());
        assert(woven(text, Seq::empty(), upto) =~= text.take(upto as int));
    } else {
        assert(woven(text, Seq::empty(), upto) =~= text.take(upto as int));
    }
}

/// A text without spans is written as itself.
pub proof fn plain_text_is_written_as_itself(text: Seq<char>)
    ensures
        unparsed(RichText::plain(utf16(text))) == text,
{
    let rich = RichText::plain(utf16(text));
    assert(all_tags(rich.spans) =~= Seq::<Tag>::empty());
    lemma_woven_without_tags(rich.text, rich.text.len());
    assert(rich.text.take(rich.text.len() as int) =~= rich.text);
    assert(utf16(Seq::<char>::empty()) =~= Seq::<u16>::empty());
    assert(marked_up(rich) =~= utf16(text));
    crate::text::utf16_round_trip(text);
}

} // verus!
