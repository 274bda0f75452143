//! The colour markup parser: tokens, then segments with inherited colours.
use crate::chars::{chars_of, same_chars, string_from_chars};
use crate::color::{hex_color, parse_hex, Color};
use crate::palette::{lookup_named_color, named_color};
use vstd::prelude::*;

verus! {

/// What `str::to_lowercase` makes of a string.
pub uninterp spec fn lower_of(s: Seq<char>) -> Seq<char>;

/// Relies on `str::to_lowercase`: its result depends on the characters of `s` alone.
#[verifier::external_body]
fn lowercase(s: &str) -> (r: String)
    ensures
        r@ == lower_of(s@),
{
    s.to_lowercase()
}

/// One token of markup, in reading order. Tags nest: every `Open` is
/// followed later by exactly one `Close` for it.
#[derive(Clone, Debug)]
pub enum Node {
    /// Literal text, including any delimiter that is not markup.
    Text(Vec<char>),
    /// An opening tag `<tag>`, holding the tag's name.
    Open(Vec<char>),
    /// The end of the innermost open tag: `written` when a matching
    /// `</tag>` stood in the input, not when the input ended first.
    Close(Vec<char>, bool),
}

pub ghost enum NodeView {
    Text(Seq<char>),
    Open(Seq<char>),
    Close(Seq<char>, bool),
}

impl View for Node {
    type V = NodeView;

    open spec fn view(&self) -> NodeView {
        match self {
            Node::Text(t) => NodeView::Text(t@),
            Node::Open(t) => NodeView::Open(t@),
            Node::Close(t, w) => NodeView::Close(t@, *w),
        }
    }
}

/// A run of text and the colour it inherits from its enclosing tags.
#[derive(Clone, Debug)]
pub struct TextSegment {
    pub text: String,
    pub color: Option<Color>,
}

impl View for TextSegment {
    type V = (Seq<char>, Option<Color>);

    open spec fn view(&self) -> (Seq<char>, Option<Color>) {
        (self.text@, self.color)
    }
}

pub open spec fn nodes_view(v: Seq<Node>) -> Seq<NodeView> {
    v.map_values(|n: Node| n@)
}

pub open spec fn segments_view(v: Seq<TextSegment>) -> Seq<(Seq<char>, Option<Color>)> {
    v.map_values(|t: TextSegment| t@)
}

pub open spec fn stack_view(v: Seq<Vec<char>>) -> Seq<Seq<char>> {
    v.map_values(|t: Vec<char>| t@)
}

/// The first index at or after `i` where `s` holds `c`.
pub open spec fn find_from(s: Seq<char>, c: char, i: int) -> Option<int>
    decreases s.len() - i,
{
    if i < 0 || i >= s.len() {
        None
    } else if s[i] == c {
        Some(i)
    } else {
        find_from(s, c, i + 1)
    }
}

pub proof fn lemma_find_from(s: Seq<char>, c: char, i: int)
    ensures
        find_from(s, c, i) matches Some(e) ==> i <= e < s.len() && s[e] == c && (forall|j: int|
            i <= j < e ==> s[j] != c),
        find_from(s, c, i) is None ==> forall|j: int| 0 <= i <= j < s.len() ==> s[j] != c,
    decreases s.len() - i,
{
    if 0 <= i < s.len() && s[i] != c {
        lemma_find_from(s, c, i + 1);
    }
}

/// The text `</tag>`.
pub open spec fn closing_tag(tag: Seq<char>) -> Seq<char> {
    seq!['<', '/'] + tag + seq!['>']
}

/// Implicit ends of the open tags, innermost first.
pub open spec fn close_all(stack: Seq<Seq<char>>) -> Seq<NodeView>
    decreases stack.len(),
{
    if stack.len() == 0 {
        seq![]
    } else {
        seq![NodeView::Close(stack.last(), false)] + close_all(stack.drop_last())
    }
}

/// The tokens of `s` from `pos` on, with `stack` the tags open there
/// (innermost last). `<name>` opens a tag; `</name>` closes the innermost
/// open tag when the names match and is literal text otherwise; a `<` with
/// no `>` after it starts literal text up to the end.
pub open spec fn scan(s: Seq<char>, pos: int, stack: Seq<Seq<char>>) -> Seq<NodeView>
    decreases s.len() - pos,
{
    if pos < 0 || pos >= s.len() {
        close_all(stack)
    } else if s[pos] == '<' {
        match find_from(s, '>', pos) {
            Some(end) => {
                proof {
                    lemma_find_from(s, '>', pos);
                }
                if pos + 1 < s.len() && s[pos + 1] == '/' {
                    let closing = s.subrange(pos, end + 1);
                    if stack.len() > 0 && closing == closing_tag(stack.last()) {
                        seq![NodeView::Close(stack.last(), true)] + scan(
                            s,
                            end + 1,
                            stack.drop_last(),
                        )
                    } else {
                        seq![NodeView::Text(closing)] + scan(s, end + 1, stack)
                    }
                } else {
                    let tag = s.subrange(pos + 1, end);
                    seq![NodeView::Open(tag)] + scan(s, end + 1, stack.push(tag))
                }
            },
            None => seq![NodeView::Text(s.subrange(pos, s.len() as int))] + close_all(stack),
        }
    } else {
        match find_from(s, '<', pos) {
            Some(idx) => {
                proof {
                    lemma_find_from(s, '<', pos);
                }
                seq![NodeView::Text(s.subrange(pos, idx))] + scan(s, idx, stack)
            },
            None => seq![NodeView::Text(s.subrange(pos, s.len() as int))] + close_all(stack),
        }
    }
}

/// The tokens of a whole input.
pub open spec fn parse_tree(s: Seq<char>) -> Seq<NodeView> {
    scan(s, 0, seq![])
}

/// The colour a tag names: `#RRGGBB` or `#AARRGGBB`, else a palette name in
/// any case.
pub open spec fn tag_color(tag: Seq<char>) -> Option<Color> {
    if tag.len() > 0 && tag[0] == '#' {
        hex_color(tag.skip(1))
    } else {
        named_color(lower_of(tag))
    }
}

/// `a`, or `b` where `a` is `None`.
pub open spec fn or_else(a: Option<Color>, b: Option<Color>) -> Option<Color> {
    if a is Some {
        a
    } else {
        b
    }
}

/// The colour in force under the stack of inherited colours.
pub open spec fn current_color(colors: Seq<Option<Color>>) -> Option<Color> {
    if colors.len() > 0 {
        colors.last()
    } else {
        None
    }
}

/// The inherited colours once the innermost tag has ended.
pub open spec fn pop_color(colors: Seq<Option<Color>>) -> Seq<Option<Color>> {
    if colors.len() > 0 {
        colors.drop_last()
    } else {
        colors
    }
}

/// The segments of `nodes` from `i` on, under the inherited colours `colors`.
pub open spec fn flatten_from(nodes: Seq<NodeView>, i: int, colors: Seq<Option<Color>>) -> Seq<
    (Seq<char>, Option<Color>),
>
    decreases nodes.len() - i,
{
    if i < 0 || i >= nodes.len() {
        seq![]
    } else {
        match nodes[i] {
            NodeView::Text(t) => seq![(t, current_color(colors))] + flatten_from(
                nodes,
                i + 1,
                colors,
            ),
            NodeView::Open(tag) => flatten_from(
                nodes,
                i + 1,
                colors.push(or_else(tag_color(tag), current_color(colors))),
            ),
            NodeView::Close(_, _) => flatten_from(nodes, i + 1, pop_color(colors)),
        }
    }
}

/// Joins neighbouring segments of the same colour, so that each segment is
/// a maximal run of one colour.
pub open spec fn merge_adjacent(segs: Seq<(Seq<char>, Option<Color>)>) -> Seq<
    (Seq<char>, Option<Color>),
>
    decreases segs.len(),
{
    if segs.len() == 0 {
        seq![]
    } else {
        let prev = merge_adjacent(segs.drop_last());
        let last = segs.last();
        if prev.len() > 0 && prev.last().1 == last.1 {
            prev.update(prev.len() - 1, (prev.last().0 + last.0, last.1))
        } else {
            prev.push(last)
        }
    }
}

/// The segments of a markup string.
pub open spec fn segments_of(s: Seq<char>) -> Seq<(Seq<char>, Option<Color>)> {
    merge_adjacent(flatten_from(parse_tree(s), 0, seq![]))
}

/// The first index at or after `from` where `s` holds `c`.
fn find_char(s: &[char], c: char, from: usize) -> (r: Option<usize>)
    ensures
        match r {
            Some(e) => find_from(s@, c, from as int) == Some(e as int),
            None => find_from(s@, c, from as int) is None,
        },
        r matches Some(e) ==> from <= e < s@.len() && s@[e as int] == c,
{
    proof {
        lemma_find_from(s@, c, from as int);
    }
    let mut i = from;
    while i < s.len()
        invariant
            from <= i,
            find_from(s@, c, from as int) == find_from(s@, c, i as int),
        decreases s@.len() - i,
    {
        if s[i] == c {
            return Some(i);
        }
        i = i + 1;
    }
    None
}

/// A copy of `s[from..to]`.
fn copy_range(s: &[char], from: usize, to: usize) -> (r: Vec<char>)
    requires
        from <= to <= s@.len(),
    ensures
        r@ == s@.subrange(from as int, to as int),
{
    vstd::slice::slice_to_vec(vstd::slice::slice_subrange(s, from, to))
}

/// The text `</tag>`.
fn closing_for(tag: &Vec<char>) -> (r: Vec<char>)
    ensures
        r@ == closing_tag(tag@),
{
    let mut out: Vec<char> = Vec::new();
    out.push('<');
    out.push('/');
    let mut i: usize = 0;
    while i < tag.len()
        invariant
            i <= tag@.len(),
            out@ == seq!['<', '/'] + tag@.subrange(0, i as int),
        decreases tag@.len() - i,
    {
        out.push(tag[i]);
        i = i + 1;
        assert(out@ =~= seq!['<', '/'] + tag@.subrange(0, i as int));
    }
    out.push('>');
    assert(out@ =~= closing_tag(tag@));
    out
}

/// Emits the implicit ends of every tag still open, innermost first.
fn close_remaining(out: &mut Vec<Node>, stack: &mut Vec<Vec<char>>)
    ensures
        nodes_view(final(out)@) == nodes_view(old(out)@) + close_all(stack_view(old(stack)@)),
{
    while stack.len() > 0
        invariant
            nodes_view(out@) + close_all(stack_view(stack@)) == nodes_view(old(out)@) + close_all(
                stack_view(old(stack)@),
            ),
        decreases stack@.len(),
    {
        let ghost before = out@;
        let ghost st = stack@;
        let tag = stack.pop().unwrap();
        assert(stack_view(st).last() == tag@);
        assert(stack_view(st).drop_last() =~= stack_view(stack@));
        out.push(Node::Close(tag, false));
        assert(nodes_view(out@) =~= nodes_view(before) + seq![NodeView::Close(tag@, false)]);
    }
    assert(close_all(stack_view(stack@)) =~= seq![]);
}

/// Splits markup into tokens. Never fails: anything that is not a tag, or a
/// closing tag that does not match the innermost open one, is literal text;
/// tags still open at the end are closed there.
pub fn parse_nodes(input: &[char]) -> (r: Vec<Node>)
    ensures
        nodes_view(r@) == parse_tree(input@),
{
    let mut out: Vec<Node> = Vec::new();
    let mut stack: Vec<Vec<char>> = Vec::new();
    let mut pos: usize = 0;
    let n = input.len();
    assert(nodes_view(out@) =~= seq![]);
    assert(stack_view(stack@) =~= seq![]);
    while pos < n
        invariant
            n == input@.len(),
            pos <= n,
            nodes_view(out@) + scan(input@, pos as int, stack_view(stack@)) == parse_tree(input@),
        decreases n - pos,
    {
        let ghost before = out@;
        let ghost st = stack_view(stack@);
        let ghost s = input@;
        let ghost old_pos = pos as int;
        if input[pos] == '<' {
            match find_char(input, '>', pos) {
                Some(end) => {
                    if pos + 1 < n && input[pos + 1] == '/' {
                        let closing = copy_range(input, pos, end + 1);
                        let mut matched = false;
                        if stack.len() > 0 {
                            assert(st.last() == stack@[stack@.len() - 1]@);
                            let expected = closing_for(&stack[stack.len() - 1]);
                            matched = same_chars(closing.as_slice(), expected.as_slice());
                        }
                        if matched {
                            let tag = stack.pop().unwrap();
                            assert(st.last() == tag@);
                            assert(st.drop_last() =~= stack_view(stack@));
                            out.push(Node::Close(tag, true));
                            assert(scan(s, old_pos, st) == seq![NodeView::Close(st.last(), true)]
                                + scan(s, end + 1, st.drop_last()));
                        } else {
                            assert(!(st.len() > 0 && closing@ == closing_tag(st.last())));
                            out.push(Node::Text(closing));
                            assert(scan(s, old_pos, st) == seq![NodeView::Text(closing@)] + scan(
                                s,
                                end + 1,
                                st,
                            ));
                        }
                    } else {
                        let tag = copy_range(input, pos + 1, end);
                        let tag_copy = tag.clone();
                        assert(tag_copy@ == tag@);
                        stack.push(tag_copy);
                        assert(stack_view(stack@) =~= st.push(tag@));
                        out.push(Node::Open(tag));
                        assert(scan(s, old_pos, st) == seq![NodeView::Open(tag_copy@)] + scan(
                            s,
                            end + 1,
                            st.push(tag_copy@),
                        ));
                    }
                    pos = end + 1;
                },
                None => {
                    let rest = copy_range(input, pos, n);
                    out.push(Node::Text(rest));
                    assert(nodes_view(out@) =~= nodes_view(before) + seq![
                        NodeView::Text(s.subrange(pos as int, n as int)),
                    ]);
                    close_remaining(&mut out, &mut stack);
                    assert(nodes_view(out@) =~= parse_tree(input@));
                    return out;
                },
            }
        } else {
            match find_char(input, '<', pos) {
                Some(idx) => {
                    assert(s[old_pos] != '<');
                    assert(find_from(s, '<', old_pos) == Some(idx as int));
                    let text = copy_range(input, pos, idx);
                    out.push(Node::Text(text));
                    assert(scan(s, old_pos, st) == seq![NodeView::Text(text@)] + scan(
                        s,
                        idx as int,
                        st,
                    ));
                    pos = idx;
                },
                None => {
                    let rest = copy_range(input, pos, n);
                    out.push(Node::Text(rest));
                    assert(nodes_view(out@) =~= nodes_view(before) + seq![
                        NodeView::Text(s.subrange(pos as int, n as int)),
                    ]);
                    close_remaining(&mut out, &mut stack);
                    assert(nodes_view(out@) =~= parse_tree(input@));
                    return out;
                },
            }
        }
        assert(nodes_view(out@) =~= nodes_view(before) + seq![out@.last()@]);
        assert(scan(s, old_pos, st) == seq![out@.last()@] + scan(s, pos as int, stack_view(stack@)));
        assert(nodes_view(out@) + scan(s, pos as int, stack_view(stack@)) =~= nodes_view(before)
            + scan(s, old_pos, st));
    }
    close_remaining(&mut out, &mut stack);
    out
}

/// The colour a tag names: `#RRGGBB`, `#AARRGGBB`, or one of the sixteen
/// palette names in any letter case; `None` for any other tag.
pub fn parse_color(tag: &Vec<char>) -> (r: Option<Color>)
    ensures
        r == tag_color(tag@),
{
    if tag.len() > 0 && tag[0] == '#' {
        let hex = vstd::slice::slice_subrange(tag.as_slice(), 1, tag.len());
        assert(hex@ =~= tag@.skip(1));
        parse_hex(hex)
    } else {
        let name = string_from_chars(tag);
        let lowered = lowercase(name.as_str());
        lookup_named_color(lowered.as_str())
    }
}

fn top_color(colors: &Vec<Option<Color>>) -> (r: Option<Color>)
    ensures
        r == current_color(colors@),
{
    if colors.len() > 0 {
        colors[colors.len() - 1]
    } else {
        None
    }
}

/// Turns tokens into segments: each text token takes the colour of its
/// innermost enclosing tag that names one, or none.
pub fn flatten_nodes(nodes: &Vec<Node>) -> (r: Vec<TextSegment>)
    ensures
        segments_view(r@) == flatten_from(nodes_view(nodes@), 0, seq![]),
{
    let ghost nv = nodes_view(nodes@);
    let mut out: Vec<TextSegment> = Vec::new();
    let mut colors: Vec<Option<Color>> = Vec::new();
    let mut i: usize = 0;
    assert(segments_view(out@) =~= seq![]);
    assert(colors@ =~= seq![]);
    while i < nodes.len()
        invariant
            nv == nodes_view(nodes@),
            i <= nodes@.len(),
            segments_view(out@) + flatten_from(nv, i as int, colors@) == flatten_from(nv, 0, seq![]),
        decreases nodes@.len() - i,
    {
        let ghost before = out@;
        let ghost cs = colors@;
        assert(nv[i as int] == nodes@[i as int]@);
        match &nodes[i] {
            Node::Text(t) => {
                let c = top_color(&colors);
                out.push(TextSegment { text: string_from_chars(t), color: c });
                assert(segments_view(out@) =~= segments_view(before) + seq![(t@, c)]);
            },
            Node::Open(tag) => {
                let c = top_color(&colors);
                let own = parse_color(tag);
                let inherited = if own.is_some() {
                    own
                } else {
                    c
                };
                colors.push(inherited);
                assert(segments_view(out@) =~= segments_view(before));
            },
            Node::Close(_, _) => {
                colors.pop();
                assert(colors@ == pop_color(cs));
                assert(segments_view(out@) =~= segments_view(before));
            },
        }
        i = i + 1;
    }
    assert(segments_view(out@) =~= segments_view(out@) + flatten_from(nv, i as int, colors@));
    out
}

/// Joins neighbouring segments of the same colour.
pub fn merge_segments(segs: Vec<TextSegment>) -> (r: Vec<TextSegment>)
    ensures
        segments_view(r@) == merge_adjacent(segments_view(segs@)),
{
    let ghost sv = segments_view(segs@);
    let mut out: Vec<TextSegment> = Vec::new();
    let mut i: usize = 0;
    assert(sv.take(0) =~= seq![]);
    assert(segments_view(out@) =~= merge_adjacent(sv.take(0)));
    while i < segs.len()
        invariant
            sv == segments_view(segs@),
            i <= segs@.len(),
            segments_view(out@) == merge_adjacent(sv.take(i as int)),
        decreases segs@.len() - i,
    {
        let seg = &segs[i];
        let ghost before = segments_view(out@);
        assert(sv.take(i as int + 1).drop_last() =~= sv.take(i as int));
        assert(sv.take(i as int + 1).last() == seg@);
        let n = out.len();
        if n > 0 && out[n - 1].color == seg.color {
            let mut last = out[n - 1].text.clone();
            last.append(seg.text.as_str());
            let c = seg.color;
            out.set(n - 1, TextSegment { text: last, color: c });
            assert(segments_view(out@) =~= before.update(
                n - 1,
                (before.last().0 + seg.text@, seg.color),
            ));
        } else {
            out.push(TextSegment { text: seg.text.clone(), color: seg.color });
            assert(segments_view(out@) =~= before.push(seg@));
        }
        i = i + 1;
    }
    assert(sv.take(i as int) =~= sv);
    out
}

/// Parses colour markup into segments of text with their colours, in
/// reading order; neighbouring text of one colour forms one segment. Never
/// fails: malformed markup becomes literal text.
pub fn parse(input: &str) -> (r: Vec<TextSegment>)
    ensures
        segments_view(r@) == segments_of(input@),
{
    let cs = chars_of(input);
    let nodes = parse_nodes(cs.as_slice());
    let flat = flatten_nodes(&nodes);
    merge_segments(flat)
}

/// The input text that a token stands for: text as it is, a tag as it was
/// written, and nothing for the end of a tag left open.
pub open spec fn node_source(n: NodeView) -> Seq<char> {
    match n {
        NodeView::Text(t) => t,
        NodeView::Open(tag) => seq!['<'] + tag + seq!['>'],
        NodeView::Close(tag, written) => if written {
            closing_tag(tag)
        } else {
            seq![]
        },
    }
}

/// The input text that a run of tokens stands for.
pub open spec fn sources(nodes: Seq<NodeView>) -> Seq<char>
    decreases nodes.len(),
{
    if nodes.len() == 0 {
        seq![]
    } else {
        node_source(nodes[0]) + sources(nodes.skip(1))
    }
}

/// The literal text of the tokens from `i` on, tags left out.
pub open spec fn visible_from(nodes: Seq<NodeView>, i: int) -> Seq<char>
    decreases nodes.len() - i,
{
    if i < 0 || i >= nodes.len() {
        seq![]
    } else {
        match nodes[i] {
            NodeView::Text(t) => t + visible_from(nodes, i + 1),
            _ => visible_from(nodes, i + 1),
        }
    }
}

/// The texts of segments, joined in order.
pub open spec fn concat_texts(segs: Seq<(Seq<char>, Option<Color>)>) -> Seq<char>
    decreases segs.len(),
{
    if segs.len() == 0 {
        seq![]
    } else {
        concat_texts(segs.drop_last()) + segs.last().0
    }
}

proof fn lemma_concat_texts_append(
    a: Seq<(Seq<char>, Option<Color>)>,
    b: Seq<(Seq<char>, Option<Color>)>,
)
    ensures
        concat_texts(a + b) == concat_texts(a) + concat_texts(b),
    decreases b.len(),
{
    if b.len() == 0 {
        assert(a + b =~= a);
        assert(concat_texts(a) + concat_texts(b) =~= concat_texts(a));
    } else {
        lemma_concat_texts_append(a, b.drop_last());
        assert((a + b).drop_last() =~= a + b.drop_last());
        assert((a + b).last() == b.last());
        assert(concat_texts(a + b) =~= concat_texts(a) + concat_texts(b));
    }
}

proof fn lemma_merge_keeps_text(segs: Seq<(Seq<char>, Option<Color>)>)
    ensures
        concat_texts(merge_adjacent(segs)) == concat_texts(segs),
    decreases segs.len(),
{
    if segs.len() > 0 {
        lemma_merge_keeps_text(segs.drop_last());
        let prev = merge_adjacent(segs.drop_last());
        let last = segs.last();
        if prev.len() > 0 && prev.last().1 == last.1 {
            let merged = prev.update(prev.len() - 1, (prev.last().0 + last.0, last.1));
            assert(merged.drop_last() =~= prev.drop_last());
            assert(concat_texts(merged) =~= concat_texts(prev) + last.0);
        } else {
            assert(prev.push(last).drop_last() =~= prev);
        }
    }
}

proof fn lemma_sources_concat(a: Seq<NodeView>, b: Seq<NodeView>)
    ensures
        sources(a + b) == sources(a) + sources(b),
    decreases a.len(),
{
    if a.len() == 0 {
        assert(a + b =~= b);
        assert(sources(a) + sources(b) =~= sources(b));
    } else {
        assert((a + b)[0] == a[0]);
        assert((a + b).skip(1) =~= a.skip(1) + b);
        lemma_sources_concat(a.skip(1), b);
        assert(sources(a + b) =~= sources(a) + sources(b));
    }
}

proof fn lemma_sources_single(x: NodeView, rest: Seq<NodeView>)
    ensures
        sources(seq![x] + rest) == node_source(x) + sources(rest),
{
    assert((seq![x] + rest)[0] == x);
    assert((seq![x] + rest).skip(1) =~= rest);
}

proof fn lemma_close_all_source(stack: Seq<Seq<char>>)
    ensures
        sources(close_all(stack)) == Seq::<char>::empty(),
    decreases stack.len(),
{
    if stack.len() > 0 {
        lemma_close_all_source(stack.drop_last());
        lemma_sources_single(NodeView::Close(stack.last(), false), close_all(stack.drop_last()));
        assert(sources(close_all(stack)) =~= Seq::<char>::empty());
    }
}

proof fn lemma_scan_source(s: Seq<char>, pos: int, stack: Seq<Seq<char>>)
    requires
        0 <= pos <= s.len(),
    ensures
        sources(scan(s, pos, stack)) == s.subrange(pos, s.len() as int),
    decreases s.len() - pos,
{
    let rest = s.subrange(pos, s.len() as int);
    if pos >= s.len() {
        lemma_close_all_source(stack);
        assert(rest =~= Seq::<char>::empty());
    } else if s[pos] == '<' {
        lemma_find_from(s, '>', pos);
        match find_from(s, '>', pos) {
            Some(end) => {
                let head = s.subrange(pos, end + 1);
                assert(rest =~= head + s.subrange(end + 1, s.len() as int));
                if pos + 1 < s.len() && s[pos + 1] == '/' {
                    if stack.len() > 0 && head == closing_tag(stack.last()) {
                        lemma_scan_source(s, end + 1, stack.drop_last());
                        lemma_sources_single(
                            NodeView::Close(stack.last(), true),
                            scan(s, end + 1, stack.drop_last()),
                        );
                    } else {
                        lemma_scan_source(s, end + 1, stack);
                        lemma_sources_single(NodeView::Text(head), scan(s, end + 1, stack));
                    }
                } else {
                    let tag = s.subrange(pos + 1, end);
                    lemma_scan_source(s, end + 1, stack.push(tag));
                    lemma_sources_single(NodeView::Open(tag), scan(s, end + 1, stack.push(tag)));
                    assert(seq!['<'] + tag + seq!['>'] =~= head);
                }
            },
            None => {
                lemma_close_all_source(stack);
                lemma_sources_single(NodeView::Text(rest), close_all(stack));
                assert(rest + Seq::<char>::empty() =~= rest);
            },
        }
    } else {
        lemma_find_from(s, '<', pos);
        match find_from(s, '<', pos) {
            Some(idx) => {
                let head = s.subrange(pos, idx);
                assert(rest =~= head + s.subrange(idx, s.len() as int));
                lemma_scan_source(s, idx, stack);
                lemma_sources_single(NodeView::Text(head), scan(s, idx, stack));
            },
            None => {
                lemma_close_all_source(stack);
                lemma_sources_single(NodeView::Text(rest), close_all(stack));
                assert(rest + Seq::<char>::empty() =~= rest);
            },
        }
    }
}

proof fn lemma_concat_texts_single(
    x: (Seq<char>, Option<Color>),
    rest: Seq<(Seq<char>, Option<Color>)>,
)
    ensures
        concat_texts(seq![x] + rest) == x.0 + concat_texts(rest),
{
    lemma_concat_texts_append(seq![x], rest);
    let one = seq![x];
    assert(one.drop_last() =~= Seq::<(Seq<char>, Option<Color>)>::empty());
    assert(one.last() == x);
    assert(concat_texts(one.drop_last()) == Seq::<char>::empty());
    assert(concat_texts(one) == concat_texts(one.drop_last()) + one.last().0);
    assert(concat_texts(one) =~= x.0);
}

proof fn lemma_flatten_text(nodes: Seq<NodeView>, i: int, colors: Seq<Option<Color>>)
    requires
        0 <= i,
    ensures
        concat_texts(flatten_from(nodes, i, colors)) == visible_from(nodes, i),
    decreases nodes.len() - i,
{
    if i < nodes.len() {
        match nodes[i] {
            NodeView::Text(t) => {
                lemma_flatten_text(nodes, i + 1, colors);
                lemma_concat_texts_single(
                    (t, current_color(colors)),
                    flatten_from(nodes, i + 1, colors),
                );
            },
            NodeView::Open(tag) => {
                lemma_flatten_text(
                    nodes,
                    i + 1,
                    colors.push(or_else(tag_color(tag), current_color(colors))),
                );
            },
            NodeView::Close(_, _) => {
                lemma_flatten_text(nodes, i + 1, pop_color(colors));
            },
        }
    }
}

/// Parsing keeps every character of the input. The tokens spell the input
/// out exactly (literal text as it is, each tag as it was written, nothing
/// for a tag that the input left open), and the segments' texts joined are
/// the literal text tokens joined: the input with its well-formed, matched
/// tag delimiters removed and every other `<`, `>` or `</...>` kept.
pub proof fn lemma_parse_keeps_text(s: Seq<char>)
    ensures
        sources(parse_tree(s)) == s,
        concat_texts(segments_of(s)) == visible_from(parse_tree(s), 0),
{
    lemma_scan_source(s, 0, seq![]);
    assert(s.subrange(0, s.len() as int) =~= s);
    lemma_flatten_text(parse_tree(s), 0, seq![]);
    lemma_merge_keeps_text(flatten_from(parse_tree(s), 0, seq![]));
}

/// The inherited colours after the tokens of `nodes` from `i` on.
pub open spec fn colors_after(nodes: Seq<NodeView>, i: int, colors: Seq<Option<Color>>) -> Seq<
    Option<Color>,
>
    decreases nodes.len() - i,
{
    if i < 0 || i >= nodes.len() {
        colors
    } else {
        match nodes[i] {
            NodeView::Text(_) => colors_after(nodes, i + 1, colors),
            NodeView::Open(tag) => colors_after(
                nodes,
                i + 1,
                colors.push(or_else(tag_color(tag), current_color(colors))),
            ),
            NodeView::Close(_, _) => colors_after(nodes, i + 1, pop_color(colors)),
        }
    }
}

/// Whether the tokens from `i` on close exactly `d` more tags than they
/// open, never closing more than are open on the way.
pub open spec fn nests(nodes: Seq<NodeView>, i: int, d: int) -> bool
    decreases nodes.len() - i,
{
    if i < 0 || i >= nodes.len() {
        d == 0
    } else {
        match nodes[i] {
            NodeView::Text(_) => nests(nodes, i + 1, d),
            NodeView::Open(_) => nests(nodes, i + 1, d + 1),
            NodeView::Close(_, _) => d > 0 && nests(nodes, i + 1, d - 1),
        }
    }
}

proof fn lemma_nested_restores(
    nodes: Seq<NodeView>,
    i: int,
    d: int,
    colors: Seq<Option<Color>>,
)
    requires
        0 <= i,
        0 <= d <= colors.len(),
        nests(nodes, i, d),
    ensures
        colors_after(nodes, i, colors) == colors.subrange(0, colors.len() - d),
    decreases nodes.len() - i,
{
    if i >= nodes.len() {
        assert(colors.subrange(0, colors.len() as int) =~= colors);
    } else {
        match nodes[i] {
            NodeView::Text(_) => {
                lemma_nested_restores(nodes, i + 1, d, colors);
            },
            NodeView::Open(tag) => {
                let pushed = colors.push(or_else(tag_color(tag), current_color(colors)));
                lemma_nested_restores(nodes, i + 1, d + 1, pushed);
                assert(pushed.subrange(0, pushed.len() - (d + 1)) =~= colors.subrange(
                    0,
                    colors.len() - d,
                ));
            },
            NodeView::Close(_, _) => {
                lemma_nested_restores(nodes, i + 1, d - 1, pop_color(colors));
                assert(pop_color(colors).subrange(0, pop_color(colors).len() - (d - 1))
                    =~= colors.subrange(0, colors.len() - d));
            },
        }
    }
}

proof fn lemma_flatten_shift(
    a: Seq<NodeView>,
    b: Seq<NodeView>,
    j: int,
    colors: Seq<Option<Color>>,
)
    requires
        0 <= j,
    ensures
        flatten_from(a + b, a.len() + j, colors) == flatten_from(b, j, colors),
        colors_after(a + b, a.len() + j, colors) == colors_after(b, j, colors),
    decreases b.len() - j,
{
    if j < b.len() {
        assert((a + b)[a.len() + j] == b[j]);
        match b[j] {
            NodeView::Text(t) => {
                lemma_flatten_shift(a, b, j + 1, colors);
            },
            NodeView::Open(tag) => {
                lemma_flatten_shift(
                    a,
                    b,
                    j + 1,
                    colors.push(or_else(tag_color(tag), current_color(colors))),
                );
            },
            NodeView::Close(_, _) => {
                lemma_flatten_shift(a, b, j + 1, pop_color(colors));
            },
        }
    }
}

proof fn lemma_flatten_split(
    a: Seq<NodeView>,
    b: Seq<NodeView>,
    i: int,
    colors: Seq<Option<Color>>,
)
    requires
        0 <= i <= a.len(),
    ensures
        flatten_from(a + b, i, colors) == flatten_from(a, i, colors) + flatten_from(
            b,
            0,
            colors_after(a, i, colors),
        ),
        colors_after(a + b, i, colors) == colors_after(b, 0, colors_after(a, i, colors)),
    decreases a.len() - i,
{
    if i == a.len() {
        lemma_flatten_shift(a, b, 0, colors);
        assert(flatten_from(a, i, colors) =~= seq![]);
        assert(seq![] + flatten_from(b, 0, colors) =~= flatten_from(b, 0, colors));
    } else {
        assert((a + b)[i] == a[i]);
        match a[i] {
            NodeView::Text(t) => {
                lemma_flatten_split(a, b, i + 1, colors);
                assert(flatten_from(a + b, i, colors) =~= flatten_from(a, i, colors)
                    + flatten_from(b, 0, colors_after(a, i, colors)));
            },
            NodeView::Open(tag) => {
                lemma_flatten_split(
                    a,
                    b,
                    i + 1,
                    colors.push(or_else(tag_color(tag), current_color(colors))),
                );
            },
            NodeView::Close(_, _) => {
                lemma_flatten_split(a, b, i + 1, pop_color(colors));
            },
        }
    }
}

/// A tag's colour reaches exactly its own contents: for a tag holding
/// properly nested tokens `inner`, the text inside is coloured under the
/// tag's own colour (or the inherited one where the tag names none), so a
/// nested tag's colour wins over its ancestors'; after the tag ends, the
/// text that follows gets the colour that was in force before it.
pub proof fn lemma_innermost_color_wins(
    tag: Seq<char>,
    inner: Seq<NodeView>,
    end: NodeView,
    rest: Seq<NodeView>,
    colors: Seq<Option<Color>>,
)
    requires
        nests(inner, 0, 0),
        end is Close,
    ensures
        flatten_from(seq![NodeView::Open(tag)] + inner + seq![end] + rest, 0, colors)
            == flatten_from(
            inner,
            0,
            colors.push(or_else(tag_color(tag), current_color(colors))),
        ) + flatten_from(rest, 0, colors),
{
    let open = seq![NodeView::Open(tag)];
    let pushed = colors.push(or_else(tag_color(tag), current_color(colors)));
    let tail = seq![end] + rest;
    assert(open + inner + seq![end] + rest =~= open + (inner + tail));
    lemma_flatten_split(open, inner + tail, 0, colors);
    assert(open[0] == NodeView::Open(tag));
    assert(flatten_from(open, 1, pushed) =~= seq![]);
    assert(colors_after(open, 1, pushed) == pushed);
    assert(flatten_from(open, 0, colors) =~= seq![]);
    assert(colors_after(open, 0, colors) == pushed);
    lemma_flatten_split(inner, tail, 0, pushed);
    lemma_nested_restores(inner, 0, 0, pushed);
    assert(pushed.subrange(0, pushed.len() as int) =~= pushed);
    lemma_flatten_split(seq![end], rest, 0, pushed);
    assert(pop_color(pushed) =~= colors);
    assert(seq![end][0] == end);
    assert(flatten_from(seq![end], 1, colors) =~= seq![]);
    assert(colors_after(seq![end], 1, colors) == colors);
    assert(flatten_from(seq![end], 0, pushed) =~= seq![]);
    assert(colors_after(seq![end], 0, pushed) == colors);
    assert(flatten_from(open + (inner + tail), 0, colors) =~= flatten_from(inner, 0, pushed)
        + flatten_from(rest, 0, colors));
}

} // verus!
