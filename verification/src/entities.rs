//! Rich text as UTF-16 code units with formatting spans over them.

use vstd::prelude::*;
use crate::markup::{parse, parsed, tree_views, MdNode, MdTree};
use crate::pattern::{first_match_replaced, replace_first};
use crate::text::{
    clone_opt_string, decimal, encode_utf16, opt_text, push_decimal, same_text, utf16,
};

verus! {

/// What a span does to the text it covers.
#[derive(Debug, Clone, PartialEq, Eq)]
pub enum MessageEntityKind {
    Bold,
    Italic,
    Underline,
    Strikethrough,
    Spoiler,
    Code,
    Pre { language: Option<String> },
    TextLink { url: String },
    Blockquote,
    /// A kind that carries no markup of its own, such as a mention or a
    /// hashtag.
    Other,
}

/// The kind of a span as plain mathematical data.
pub enum SpanKind {
    Bold,
    Italic,
    Underline,
    Strikethrough,
    Spoiler,
    Code,
    Pre { language: Option<Seq<char>> },
    TextLink { url: Seq<char> },
    Blockquote,
    Other,
}

impl View for MessageEntityKind {
    type V = SpanKind;

    open spec fn view(&self) -> SpanKind {
        match self {
            MessageEntityKind::Bold => SpanKind::Bold,
            MessageEntityKind::Italic => SpanKind::Italic,
            MessageEntityKind::Underline => SpanKind::Underline,
            MessageEntityKind::Strikethrough => SpanKind::Strikethrough,
            MessageEntityKind::Spoiler => SpanKind::Spoiler,
            MessageEntityKind::Code => SpanKind::Code,
            MessageEntityKind::Pre { language } => SpanKind::Pre { language: opt_text(*language) },
            MessageEntityKind::TextLink { url } => SpanKind::TextLink { url: url@ },
            MessageEntityKind::Blockquote => SpanKind::Blockquote,
            MessageEntityKind::Other => SpanKind::Other,
        }
    }
}

impl MessageEntityKind {
    /// A copy of this kind.
    pub fn duplicate(&self) -> (out: MessageEntityKind)
        ensures
            out@ == self@,
    {
        match self {
            MessageEntityKind::Bold => MessageEntityKind::Bold,
            MessageEntityKind::Italic => MessageEntityKind::Italic,
            MessageEntityKind::Underline => MessageEntityKind::Underline,
            MessageEntityKind::Strikethrough => MessageEntityKind::Strikethrough,
            MessageEntityKind::Spoiler => MessageEntityKind::Spoiler,
            MessageEntityKind::Code => MessageEntityKind::Code,
            MessageEntityKind::Pre { language } => MessageEntityKind::Pre {
                language: clone_opt_string(language),
            },
            MessageEntityKind::TextLink { url } => MessageEntityKind::TextLink { url: url.clone() },
            MessageEntityKind::Blockquote => MessageEntityKind::Blockquote,
            MessageEntityKind::Other => MessageEntityKind::Other,
        }
    }
}

/// A formatting instruction over `length` code units of a text, starting
/// at code unit `offset`.
#[derive(Debug, Clone, PartialEq, Eq)]
pub struct MessageEntity {
    pub kind: MessageEntityKind,
    pub offset: usize,
    pub length: usize,
}

/// A span as plain mathematical data.
pub struct Span {
    pub kind: SpanKind,
    pub offset: nat,
    pub length: nat,
}

impl View for MessageEntity {
    type V = Span;

    open spec fn view(&self) -> Span {
        Span { kind: self.kind@, offset: self.offset as nat, length: self.length as nat }
    }
}

impl Span {
    /// The span `by` code units further on.
    pub open spec fn shifted(self, by: nat) -> Span {
        Span { kind: self.kind, offset: self.offset + by, length: self.length }
    }

    /// True where the span lies within a text of `len` code units.
    pub open spec fn within(self, len: nat) -> bool {
        self.offset + self.length <= len
    }
}

impl MessageEntity {
    /// A span of the given kind.
    pub fn new(kind: MessageEntityKind, offset: usize, length: usize) -> (out: MessageEntity)
        ensures
            out@ == (Span { kind: kind@, offset: offset as nat, length: length as nat }),
    {
        MessageEntity { kind, offset, length }
    }

    /// A bold span.
    pub fn bold(offset: usize, length: usize) -> (out: MessageEntity)
        ensures
            out@ == (Span { kind: SpanKind::Bold, offset: offset as nat, length: length as nat }),
    {
        MessageEntity { kind: MessageEntityKind::Bold, offset, length }
    }

    /// An italic span.
    pub fn italic(offset: usize, length: usize) -> (out: MessageEntity)
        ensures
            out@ == (Span { kind: SpanKind::Italic, offset: offset as nat, length: length as nat }),
    {
        MessageEntity { kind: MessageEntityKind::Italic, offset, length }
    }

    /// An underlined span.
    pub fn underline(offset: usize, length: usize) -> (out: MessageEntity)
        ensures
            out@ == (Span {
                kind: SpanKind::Underline,
                offset: offset as nat,
                length: length as nat,
            }),
    {
        MessageEntity { kind: MessageEntityKind::Underline, offset, length }
    }

    /// A struck-through span.
    pub fn strikethrough(offset: usize, length: usize) -> (out: MessageEntity)
        ensures
            out@ == (Span {
                kind: SpanKind::Strikethrough,
                offset: offset as nat,
                length: length as nat,
            }),
    {
        MessageEntity { kind: MessageEntityKind::Strikethrough, offset, length }
    }

    /// A span hidden until the reader reveals it.
    pub fn spoiler(offset: usize, length: usize) -> (out: MessageEntity)
        ensures
            out@ == (Span { kind: SpanKind::Spoiler, offset: offset as nat, length: length as nat }),
    {
        MessageEntity { kind: MessageEntityKind::Spoiler, offset, length }
    }

    /// A span of inline code.
    pub fn code(offset: usize, length: usize) -> (out: MessageEntity)
        ensures
            out@ == (Span { kind: SpanKind::Code, offset: offset as nat, length: length as nat }),
    {
        MessageEntity { kind: MessageEntityKind::Code, offset, length }
    }

    /// A block of code in an optional language.
    pub fn pre(language: Option<String>, offset: usize, length: usize) -> (out: MessageEntity)
        ensures
            out@ == (Span {
                kind: SpanKind::Pre { language: opt_text(language) },
                offset: offset as nat,
                length: length as nat,
            }),
    {
        MessageEntity { kind: MessageEntityKind::Pre { language }, offset, length }
    }

    /// A span that links to `url`.
    pub fn text_link(url: String, offset: usize, length: usize) -> (out: MessageEntity)
        ensures
            out@ == (Span {
                kind: SpanKind::TextLink { url: url@ },
                offset: offset as nat,
                length: length as nat,
            }),
    {
        MessageEntity { kind: MessageEntityKind::TextLink { url }, offset, length }
    }

    /// A quoted span.
    pub fn blockquote(offset: usize, length: usize) -> (out: MessageEntity)
        ensures
            out@ == (Span {
                kind: SpanKind::Blockquote,
                offset: offset as nat,
                length: length as nat,
            }),
    {
        MessageEntity { kind: MessageEntityKind::Blockquote, offset, length }
    }
}

/// The views of a list of spans.
pub open spec fn span_views(entities: Seq<MessageEntity>) -> Seq<Span> {
    Seq::new(entities.len(), |i: int| entities[i]@)
}

/// A text in UTF-16 code units and the spans that format it.
#[derive(Debug, PartialEq, Eq)]
pub struct StringWithEntities(pub Vec<u16>, pub Vec<MessageEntity>);

/// Rich text as plain mathematical data.
pub struct RichText {
    pub text: Seq<u16>,
    pub spans: Seq<Span>,
}

impl View for StringWithEntities {
    type V = RichText;

    open spec fn view(&self) -> RichText {
        RichText { text: self.0@, spans: span_views(self.1@) }
    }
}

/// Each span moved `by` code units further on.
pub open spec fn shift(spans: Seq<Span>, by: nat) -> Seq<Span> {
    Seq::new(spans.len(), |i: int| spans[i].shifted(by))
}

impl RichText {
    /// No text and no spans.
    pub open spec fn empty() -> RichText {
        RichText { text: Seq::empty(), spans: Seq::empty() }
    }

    /// A text without spans.
    pub open spec fn plain(text: Seq<u16>) -> RichText {
        RichText { text, spans: Seq::empty() }
    }

    /// True where every span lies within the text.
    pub open spec fn wf(self) -> bool {
        forall|i: int| 0 <= i < self.spans.len() ==> (#[trigger] self.spans[i]).within(self.text.len())
    }

    /// This text followed by `other`: the spans of `other` move on by the
    /// length of this text, so that they cover in the result what they
    /// covered in `other`.
    pub open spec fn join(self, other: RichText) -> RichText {
        RichText {
            text: self.text + other.text,
            spans: self.spans + shift(other.spans, self.text.len()),
        }
    }

    /// This text under one more span of the given kind, which covers all
    /// of it and comes before the spans already there.
    pub open spec fn wrap(self, kind: SpanKind) -> RichText {
        RichText {
            text: self.text,
            spans: seq![Span { kind, offset: 0, length: self.text.len() }] + self.spans,
        }
    }
}

/// The parts joined from first to last.
pub open spec fn join_all(parts: Seq<RichText>) -> RichText
    decreases parts.len(),
{
    if parts.len() == 0 {
        RichText::empty()
    } else {
        join_all(parts.drop_last()).join(parts.last())
    }
}

/// The views of a list of rich texts.
pub open spec fn rich_views(parts: Seq<StringWithEntities>) -> Seq<RichText> {
    Seq::new(parts.len(), |i: int| parts[i]@)
}

/// Joining keeps every span within the text.
pub proof fn join_keeps_spans_within(a: RichText, b: RichText)
    requires
        a.wf(),
        b.wf(),
    ensures
        a.join(b).wf(),
{
    let j = a.join(b);
    assert forall|i: int| 0 <= i < j.spans.len() implies (#[trigger] j.spans[i]).within(
        j.text.len(),
    ) by {
        if i < a.spans.len() {
            assert(j.spans[i] == a.spans[i]);
        } else {
            assert(j.spans[i] == b.spans[i - a.spans.len()].shifted(a.text.len()));
        }
    }
}

/// Wrapping keeps every span within the text.
pub proof fn wrap_keeps_spans_within(a: RichText, kind: SpanKind)
    requires
        a.wf(),
    ensures
        a.wrap(kind).wf(),
{
    let w = a.wrap(kind);
    assert forall|i: int| 0 <= i < w.spans.len() implies (#[trigger] w.spans[i]).within(
        w.text.len(),
    ) by {
        if i > 0 {
            assert(w.spans[i] == a.spans[i - 1]);
        }
    }
}

/// Joining any number of well-formed parts gives a well-formed text.
pub proof fn join_all_keeps_spans_within(parts: Seq<RichText>)
    requires
        forall|i: int| 0 <= i < parts.len() ==> (#[trigger] parts[i]).wf(),
    ensures
        join_all(parts).wf(),
    decreases parts.len(),
{
    if parts.len() > 0 {
        join_all_keeps_spans_within(parts.drop_last());
        join_keeps_spans_within(join_all(parts.drop_last()), parts.last());
    }
}

impl StringWithEntities {
    /// The empty text.
    pub fn new() -> (out: Self)
        ensures
            out@ == RichText::empty(),
    {
        let out = StringWithEntities(Vec::new(), Vec::new());
        assert(out@.spans =~= Seq::empty());
        out
    }

    /// The text of `val` without spans.
    pub fn plain(val: &str) -> (out: Self)
        ensures
            out@ == RichText::plain(utf16(val@)),
    {
        let out = StringWithEntities(encode_utf16(val), Vec::new());
        assert(out@.spans =~= Seq::empty());
        out
    }

    /// Appends `other`: its text goes behind this text, and its spans move
    /// on by the length that this text had.
    pub fn join(&mut self, other: &Self)
        requires
            other@.wf(),
        ensures
            final(self)@ == old(self)@.join(other@),
            old(self)@.wf() ==> final(self)@.wf(),
    {
        proof {
            if old(self)@.wf() {
                join_keeps_spans_within(old(self)@, other@);
            }
        }
        let base = self.0.len();
        self.0.extend_from_slice(other.0.as_slice());
        let total = self.0.len();
        assert(total == base + other.0@.len());
        let mut i: usize = 0;
        while i < other.1.len()
            invariant
                0 <= i <= other.1.len(),
                other@.wf(),
                base + other.0.len() <= usize::MAX,
                base == old(self).0.len(),
                self.0@ == old(self).0@ + other.0@,
                self.1@.len() == old(self).1@.len() + i,
                forall|k: int| 0 <= k < old(self).1@.len() ==> self.1@[k] == old(self).1@[k],
                forall|k: int|
                    0 <= k < i ==> (#[trigger] self.1@[old(self).1@.len() + k])@ == other.1@[k]@.shifted(
                        base as nat,
                    ),
            decreases other.1.len() - i,
        {
            let e = &other.1[i];
            assert(other@.spans[i as int].within(other.0@.len()));
            let moved = MessageEntity {
                kind: e.kind.duplicate(),
                offset: e.offset + base,
                length: e.length,
            };
            self.1.push(moved);
            i += 1;
        }
        proof {
            let joined = old(self)@.join(other@);
            let kept = old(self).1@.len();
            assert(self@.spans.len() == joined.spans.len());
            assert forall|j: int| 0 <= j < self@.spans.len() implies self@.spans[j]
                == joined.spans[j] by {
                if j >= kept {
                    assert(self.1@[kept + (j - kept)]@ == other.1@[j - kept]@.shifted(base as nat));
                }
            }
            assert(self@.spans =~= joined.spans);
        }
    }

    /// Puts the text under one more span of the given kind, which covers
    /// all of it and comes first.
    pub fn wrap(self, kind: MessageEntityKind) -> (out: Self)
        ensures
            out@ == self@.wrap(kind@),
            self@.wf() ==> out@.wf(),
    {
        proof {
            if self@.wf() {
                wrap_keeps_spans_within(self@, kind@);
            }
        }
        let StringWithEntities(text, mut rest) = self;
        let mut entities: Vec<MessageEntity> = Vec::new();
        entities.push(MessageEntity { kind, offset: 0, length: text.len() });
        entities.append(&mut rest);
        let out = StringWithEntities(text, entities);
        assert(out@.spans =~= self@.wrap(kind@).spans);
        out
    }

    /// Joins the parts from first to last.
    pub fn join_strings(strings: Vec<Self>) -> (out: Self)
        requires
            forall|i: int| 0 <= i < strings@.len() ==> (#[trigger] strings@[i])@.wf(),
        ensures
            out@ == join_all(rich_views(strings@)),
            out@.wf(),
    {
        let mut string = Self::new();
        let mut i: usize = 0;
        while i < strings.len()
            invariant
                0 <= i <= strings.len(),
                forall|k: int| 0 <= k < strings@.len() ==> (#[trigger] strings@[k])@.wf(),
                string@ == join_all(rich_views(strings@).take(i as int)),
                string@.wf(),
            decreases strings.len() - i,
        {
            string.join(&strings[i]);
            proof {
                let parts = rich_views(strings@);
                assert(parts.take(i + 1).drop_last() =~= parts.take(i as int));
                assert(parts.take(i + 1).last() == strings@[i as int]@);
            }
            i += 1;
        }
        proof {
            assert(rich_views(strings@).take(strings@.len() as int) =~= rich_views(strings@));
        }
        string
    }
}

/// The address that marks a link as a spoiler.
pub const SPOILER_URL: &'static str = "x-oxibridge:spoiler";

/// The pattern of a spoiler in the markup that users write.
pub const SPOILER_PATTERN: &'static str = "\\|\\|(.*)\\|\\|";

/// The link that a spoiler is rewritten to before the text is parsed.
pub const SPOILER_LINK: &'static str = "[$1](x-oxibridge:spoiler)";

/// The text with its first spoiler rewritten as a link to the spoiler
/// address; the text itself where the pattern cannot be used.
pub open spec fn spoiler_rewritten(value: Seq<char>) -> Seq<char> {
    match first_match_replaced(SPOILER_PATTERN@, value, SPOILER_LINK@) {
        Some(rewritten) => rewritten,
        None => value,
    }
}

/// What comes before the text of a heading: one `#` for each level, and
/// a space.
pub open spec fn heading_prefix(depth: u8) -> Seq<char> {
    Seq::new(depth as nat, |i: int| '#').push(' ')
}

/// What comes before item `index` of a list: its number and a full stop
/// in an ordered list, which counts from `start` or from one; a bullet
/// otherwise. A space follows either.
pub open spec fn item_prefix(ordered: bool, start: Option<u32>, index: nat) -> Seq<char> {
    if ordered {
        let first: nat = match start {
            Some(n) => n as nat,
            None => 1,
        };
        decimal(first + index) + ". "@
    } else {
        "\u{2022} "@
    }
}

/// The address that a text stands for once it is parsed and normalised
/// as a URL; `None` where the text is no URL.
pub uninterp spec fn parsed_url(url: Seq<char>) -> Option<Seq<char>>;

/// Calls `reqwest::Url::parse` and writes the URL that came back as a
/// string. The contract names the result and claims no more than that it
/// is a function of the text.
#[verifier::external_body]
fn parse_url(url: &str) -> (out: Option<String>)
    ensures
        opt_text(out) == parsed_url(url@),
{
    match reqwest::Url::parse(url) {
        Ok(parsed) => Some(parsed.to_string()),
        Err(_) => None,
    }
}

/// The span that a link becomes: a spoiler where it leads to the spoiler
/// address; otherwise a link to the address that it parses to; and no
/// span at all where the address does not parse, so that only the text
/// of the link is left.
pub open spec fn link_kind(url: Seq<char>, parsed: Option<Seq<char>>) -> Option<SpanKind> {
    if url == SPOILER_URL@ {
        Some(SpanKind::Spoiler)
    } else {
        match parsed {
            Some(address) => Some(SpanKind::TextLink { url: address }),
            None => None,
        }
    }
}

/// The view of an optional kind.
pub open spec fn opt_kind(kind: Option<MessageEntityKind>) -> Option<SpanKind> {
    match kind {
        Some(kind) => Some(kind@),
        None => None,
    }
}

/// Decides the span of a link from its address as written and from what
/// the address parsed to.
pub fn link_entity_kind(url: &str, parsed: Option<String>) -> (out: Option<MessageEntityKind>)
    ensures
        opt_kind(out) == link_kind(url@, opt_text(parsed)),
{
    if is_spoiler_url(url) {
        Some(MessageEntityKind::Spoiler)
    } else {
        match parsed {
            Some(address) => Some(MessageEntityKind::TextLink { url: address }),
            None => None,
        }
    }
}

/// What stands for a node of unknown kind.
pub open spec fn placeholder(description: Seq<char>) -> Seq<char> {
    "unknown node "@ + description
}

/// One item of a list: its prefix, what the item holds, and a line break.
pub open spec fn render_item(prefix: Seq<char>, item: RichText) -> RichText {
    RichText::plain(utf16(prefix)).join(item).join(RichText::plain(utf16("\n"@)))
}

/// Each tree rendered, in order.
pub open spec fn render_each(trees: Seq<MdTree>) -> Seq<RichText>
    decreases trees,
{
    Seq::new(
        trees.len(),
        |i: int|
            if 0 <= i < trees.len() {
                render(trees[i])
            } else {
                RichText::empty()
            },
    )
}

/// The items of a list rendered, each with its prefix and a line break.
pub open spec fn render_items(ordered: bool, start: Option<u32>, items: Seq<MdTree>) -> Seq<
    RichText,
>
    decreases items,
{
    Seq::new(
        items.len(),
        |i: int|
            if 0 <= i < items.len() {
                render_item(item_prefix(ordered, start, i as nat), render(items[i]))
            } else {
                RichText::empty()
            },
    )
}

/// The rich text of a syntax tree. Children are rendered first and joined
/// in order; a node that formats puts one span over all of its text.
pub open spec fn render(tree: MdTree) -> RichText
    decreases tree,
{
    match tree {
        MdTree::Group(children) => join_all(render_each(children)),
        // A paragraph adds nothing of its own: neither a span nor a line
        // break, so that two paragraphs in a row stand side by side.
        MdTree::Paragraph(children) => join_all(render_each(children)),
        MdTree::Text(value) => RichText::plain(utf16(value)),
        MdTree::Strong(children) => join_all(render_each(children)).wrap(SpanKind::Bold),
        MdTree::Emphasis(children) => join_all(render_each(children)).wrap(SpanKind::Italic),
        MdTree::InlineCode(value) => RichText::plain(utf16(value)).wrap(SpanKind::Code),
        MdTree::Code { value, lang } => RichText::plain(utf16(value)).wrap(
            SpanKind::Pre { language: lang },
        ),
        MdTree::Heading { depth, children } => RichText::plain(utf16(heading_prefix(depth))).join(
            join_all(render_each(children)),
        ).wrap(SpanKind::Bold),
        MdTree::List { ordered, start, children } => join_all(
            render_items(ordered, start, children),
        ),
        MdTree::Link { url, children } => match link_kind(url, parsed_url(url)) {
            Some(kind) => join_all(render_each(children)).wrap(kind),
            None => join_all(render_each(children)),
        },
        MdTree::Blockquote(children) => join_all(render_each(children)).wrap(
            SpanKind::Blockquote,
        ),
        MdTree::Break => RichText::plain(utf16("\n"@)),
        MdTree::Unknown(description) => RichText::plain(utf16(placeholder(description))),
    }
}

/// The rich text of a message written in markup: nothing for an empty
/// message; otherwise the rendering of the tree that the parser makes of
/// the text once its spoiler is rewritten.
pub open spec fn converted(value: Seq<char>) -> RichText {
    if value.len() == 0 {
        RichText::empty()
    } else {
        render(parsed(spoiler_rewritten(value)))
    }
}

/// Conversion is a function of the message: equal messages convert to
/// equal text and to the same spans, in whatever order the spans are
/// counted.
pub proof fn equal_messages_convert_alike(a: Seq<char>, b: Seq<char>)
    requires
        a == b,
    ensures
        converted(a).text == converted(b).text,
        converted(a).spans == converted(b).spans,
        converted(a).spans.to_multiset() == converted(b).spans.to_multiset(),
{
}

/// An empty message converts to no text and no spans.
pub proof fn empty_message_converts_to_nothing()
    ensures
        converted(Seq::empty()) == RichText::empty(),
{
}

/// Nesting: emphasis around strong text gives two spans over the same
/// code units, the italic one first and the bold one second.
pub proof fn nested_spans_coincide(children: Seq<MdTree>)
    ensures
        ({
            let inner = join_all(render_each(children));
            let out = render(MdTree::Emphasis(seq![MdTree::Strong(children)]));
            &&& out.text == inner.text
            &&& out.spans.len() == inner.spans.len() + 2
            &&& out.spans[0] == (Span { kind: SpanKind::Italic, offset: 0, length: inner.text.len() })
            &&& out.spans[1] == (Span { kind: SpanKind::Bold, offset: 0, length: inner.text.len() })
        }),
{
    let inner = join_all(render_each(children));
    let strong = MdTree::Strong(children);
    let parts = render_each(seq![strong]);
    assert(parts.len() == 1);
    assert(parts[0] == inner.wrap(SpanKind::Bold));
    assert(parts.drop_last() =~= Seq::<RichText>::empty());
    assert(join_all(parts.drop_last()) == RichText::empty());
    let joined = join_all(parts);
    assert(joined == RichText::empty().join(parts[0]));
    assert(joined.text =~= inner.text);
    assert(joined.spans =~= parts[0].spans);
}

/// Offsets count UTF-16 code units: a span behind a text starts at the
/// number of code units of that text, so behind a character beyond
/// U+FFFF it starts two code units further on, not one.
pub proof fn span_behind_text_starts_at_its_code_units(before: Seq<char>, children: Seq<MdTree>)
    ensures
        ({
            let inner = join_all(render_each(children));
            let out = render(MdTree::Group(seq![MdTree::Text(before), MdTree::Strong(children)]));
            &&& out.text == utf16(before) + inner.text
            &&& out.spans.len() == inner.spans.len() + 1
            &&& out.spans[0] == (Span {
                kind: SpanKind::Bold,
                offset: utf16(before).len(),
                length: inner.text.len(),
            })
        }),
{
    let inner = join_all(render_each(children));
    let trees = seq![MdTree::Text(before), MdTree::Strong(children)];
    let parts = render_each(trees);
    assert(parts.len() == 2);
    assert(parts[0] == RichText::plain(utf16(before)));
    assert(parts[1] == inner.wrap(SpanKind::Bold));
    let head = parts.drop_last();
    assert(head.len() == 1);
    assert(head[0] == parts[0]);
    assert(head.drop_last() =~= Seq::<RichText>::empty());
    assert(join_all(head.drop_last()) == RichText::empty());
    assert(join_all(head) == RichText::empty().join(parts[0]));
    assert(join_all(head).text =~= utf16(before));
    assert(join_all(head).spans =~= Seq::<Span>::empty());
    let joined = join_all(parts);
    assert(joined == join_all(head).join(parts[1]));
    assert(joined.text =~= utf16(before) + inner.text);
    assert(joined.spans[0] == parts[1].spans[0].shifted(utf16(before).len()));
}

/// A paragraph renders as its children in a row and adds nothing: two
/// paragraphs of one document stand side by side, with no line break
/// between them.
pub proof fn paragraphs_stand_side_by_side(first: Seq<MdTree>, second: Seq<MdTree>)
    ensures
        render(MdTree::Paragraph(first)) == join_all(render_each(first)),
        render(MdTree::Group(seq![MdTree::Paragraph(first), MdTree::Paragraph(second)])).text
            == join_all(render_each(first)).text + join_all(render_each(second)).text,
{
    let a = join_all(render_each(first));
    let b = join_all(render_each(second));
    let parts = render_each(seq![MdTree::Paragraph(first), MdTree::Paragraph(second)]);
    assert(parts.len() == 2);
    assert(parts[0] == a);
    assert(parts[1] == b);
    let head = parts.drop_last();
    assert(head.len() == 1);
    assert(head[0] == a);
    assert(head.drop_last() =~= Seq::<RichText>::empty());
    assert(join_all(head.drop_last()) == RichText::empty());
    assert(join_all(head) == RichText::empty().join(a));
    assert(join_all(head).text =~= a.text);
    assert(join_all(parts) == join_all(head).join(b));
}

/// A code block gives its text as it stands, under exactly one span: the
/// block in its language. Nothing inside it is read as markup.
pub proof fn code_block_has_one_span(value: Seq<char>, lang: Option<Seq<char>>)
    ensures
        render(MdTree::Code { value, lang }) == (RichText {
            text: utf16(value),
            spans: seq![
                Span { kind: SpanKind::Pre { language: lang }, offset: 0, length: utf16(value).len() },
            ],
        }),
{
    let out = render(MdTree::Code { value, lang });
    assert(out.spans =~= seq![
        Span { kind: SpanKind::Pre { language: lang }, offset: 0, length: utf16(value).len() },
    ]);
}

/// Spans of one kind over the same text stay apart: strong text inside
/// strong text gives two bold spans.
pub proof fn equal_spans_are_not_merged(children: Seq<MdTree>)
    ensures
        ({
            let inner = join_all(render_each(children));
            let out = render(MdTree::Strong(seq![MdTree::Strong(children)]));
            &&& out.spans.len() == inner.spans.len() + 2
            &&& out.spans[0] == out.spans[1]
            &&& out.spans[0].kind == SpanKind::Bold
        }),
{
    let inner = join_all(render_each(children));
    let parts = render_each(seq![MdTree::Strong(children)]);
    assert(parts.len() == 1);
    assert(parts[0] == inner.wrap(SpanKind::Bold));
    assert(parts.drop_last() =~= Seq::<RichText>::empty());
    assert(join_all(parts.drop_last()) == RichText::empty());
    let joined = join_all(parts);
    assert(joined == RichText::empty().join(parts[0]));
    assert(joined.text =~= inner.text);
    assert(joined.spans =~= parts[0].spans);
}

/// Rewrites the first spoiler of a text as a link to the spoiler address.
pub fn rewrite_spoilers(value: &str) -> (out: String)
    ensures
        out@ == spoiler_rewritten(value@),
{
    match replace_first(SPOILER_PATTERN, value, SPOILER_LINK) {
        Some(rewritten) => rewritten,
        None => value.to_owned(),
    }
}

fn heading_prefix_text(depth: u8) -> (out: String)
    ensures
        out@ == heading_prefix(depth),
{
    let mut out = String::new();
    let mut i: u8 = 0;
    proof {
        reveal_strlit("#");
        reveal_strlit(" ");
    }
    while i < depth
        invariant
            0 <= i <= depth,
            out@ == Seq::new(i as nat, |k: int| '#'),
            "#"@ == seq!['#'],
        decreases depth - i,
    {
        out.append("#");
        i += 1;
        assert(out@ =~= Seq::new(i as nat, |k: int| '#'));
    }
    out.append(" ");
    assert(out@ =~= heading_prefix(depth));
    out
}

fn item_prefix_text(ordered: bool, start: Option<u32>, index: usize) -> (out: String)
    ensures
        out@ == item_prefix(ordered, start, index as nat),
{
    if ordered {
        let first: u128 = match start {
            Some(n) => n as u128,
            None => 1,
        };
        let mut out = String::new();
        push_decimal(&mut out, first + index as u128);
        out.append(". ");
        assert(out@ =~= item_prefix(ordered, start, index as nat));
        out
    } else {
        "\u{2022} ".to_owned()
    }
}

/// Tells whether `url` is the spoiler address.
pub fn is_spoiler_url(url: &str) -> (out: bool)
    ensures
        out == (url@ == SPOILER_URL@),
{
    same_text(url, SPOILER_URL)
}

/// Renders each node and joins the results in order.
pub fn nodes_to_entities(nodes: &Vec<MdNode>) -> (out: StringWithEntities)
    ensures
        out@ == join_all(render_each(tree_views(nodes@))),
        out@.wf(),
    decreases nodes,
{
    let mut string = StringWithEntities::new();
    let mut i: usize = 0;
    let ghost parts = render_each(tree_views(nodes@));
    while i < nodes.len()
        invariant
            0 <= i <= nodes.len(),
            parts == render_each(tree_views(nodes@)),
            string@ == join_all(parts.take(i as int)),
            string@.wf(),
        decreases nodes.len() - i,
    {
        let part = node_to_entities(&nodes[i]);
        string.join(&part);
        proof {
            assert(parts.take(i + 1).drop_last() =~= parts.take(i as int));
            assert(parts.take(i + 1).last() == part@);
        }
        i += 1;
    }
    proof {
        assert(parts.take(nodes@.len() as int) =~= parts);
    }
    string
}

/// Renders the items of a list, each with its prefix and a line break,
/// and joins them in order.
fn items_to_entities(ordered: bool, start: Option<u32>, items: &Vec<MdNode>) -> (out:
    StringWithEntities)
    ensures
        out@ == join_all(render_items(ordered, start, tree_views(items@))),
        out@.wf(),
    decreases items,
{
    let mut string = StringWithEntities::new();
    let mut i: usize = 0;
    let ghost parts = render_items(ordered, start, tree_views(items@));
    while i < items.len()
        invariant
            0 <= i <= items.len(),
            parts == render_items(ordered, start, tree_views(items@)),
            string@ == join_all(parts.take(i as int)),
            string@.wf(),
        decreases items.len() - i,
    {
        let item = node_to_entities(&items[i]);
        let mut entry = StringWithEntities::plain(item_prefix_text(ordered, start, i).as_str());
        entry.join(&item);
        entry.join(&StringWithEntities::plain("\n"));
        string.join(&entry);
        proof {
            assert(parts.take(i + 1).drop_last() =~= parts.take(i as int));
            assert(parts.take(i + 1).last() == entry@);
        }
        i += 1;
    }
    proof {
        assert(parts.take(items@.len() as int) =~= parts);
    }
    string
}

/// Renders a syntax tree as rich text.
pub fn node_to_entities(node: &MdNode) -> (out: StringWithEntities)
    ensures
        out@ == render(node@),
        out@.wf(),
    decreases node,
{
    match node {
        MdNode::Group(children) => nodes_to_entities(children),
        MdNode::Paragraph(children) => nodes_to_entities(children),
        MdNode::Text(value) => StringWithEntities::plain(value.as_str()),
        MdNode::Strong(children) => nodes_to_entities(children).wrap(MessageEntityKind::Bold),
        MdNode::Emphasis(children) => nodes_to_entities(children).wrap(MessageEntityKind::Italic),
        MdNode::InlineCode(value) => StringWithEntities::plain(value.as_str()).wrap(
            MessageEntityKind::Code,
        ),
        MdNode::Code { value, lang } => StringWithEntities::plain(value.as_str()).wrap(
            MessageEntityKind::Pre { language: clone_opt_string(lang) },
        ),
        MdNode::Heading { depth, children } => {
            let mut string = StringWithEntities::plain(heading_prefix_text(*depth).as_str());
            string.join(&nodes_to_entities(children));
            string.wrap(MessageEntityKind::Bold)
        },
        MdNode::List { ordered, start, children } => items_to_entities(
            *ordered,
            *start,
            children,
        ),
        MdNode::Link { url, children } => {
            let string = nodes_to_entities(children);
            match link_entity_kind(url.as_str(), parse_url(url.as_str())) {
                Some(kind) => string.wrap(kind),
                None => string,
            }
        },
        MdNode::Blockquote(children) => nodes_to_entities(children).wrap(
            MessageEntityKind::Blockquote,
        ),
        MdNode::Break => StringWithEntities::plain("\n"),
        MdNode::Unknown(description) => {
            let mut text = "unknown node ".to_owned();
            text.append(description.as_str());
            assert(text@ =~= placeholder(description@));
            StringWithEntities::plain(text.as_str())
        },
    }
}

/// Converts a message written in markup to rich text. The result is a
/// function of the message alone: equal messages give equal text and
/// equal spans.
pub fn to_string_with_entities(value: &str) -> (out: StringWithEntities)
    ensures
        out@ == converted(value@),
        out@.wf(),
{
    if value.is_empty() {
        return StringWithEntities::new();
    }
    let rewritten = rewrite_spoilers(value);
    let tree = parse(rewritten.as_str());
    node_to_entities(&tree)
}

} // verus!
