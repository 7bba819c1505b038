//! Assembly of the composed drawing into a vector-graphics document.
//!
//! The writer enforces a strict protocol: the header is written exactly
//! once, items are accepted only between header and finalisation, and
//! finalisation happens once, back at the top nesting level. Violations are
//! typed errors that leave the writer untouched. Every item is rendered as
//! text lines, each indented by the current nesting depth.

use crate::geometry::Point;
use crate::graph_drawer::{Color, DrawableEdge, DrawableGraph, DrawableLabel, DrawableVertex};
use crate::text::{
    chars_to_string, push_byte_hex, push_i64_decimal, push_str_chars, push_u64_decimal, str_chars,
    spec_byte_hex, spec_dec_digits, spec_dec_int,
};
use vstd::prelude::*;

verus! {

use vstd::string::StringExecFns;

/// Anything the writer can embed: it renders itself as text.
pub trait SVGItem {
    /// The text this item renders to.
    spec fn svg_view(&self) -> Seq<char>;

    /// Renders the item; the result is exactly `svg_view`.
    fn to_svg_string(&self) -> (s: String)
        ensures
            s@ == self.svg_view(),
    ;
}

/// `n` space characters.
pub open spec fn spec_spaces(n: nat) -> Seq<char>
    decreases n,
{
    if n == 0 {
        Seq::empty()
    } else {
        spec_spaces((n - 1) as nat).push(' ')
    }
}

/// Index of the first line break, or the length if there is none.
pub open spec fn spec_first_nl(s: Seq<char>) -> nat
    decreases s.len(),
{
    if s.len() == 0 {
        0nat
    } else if s[0] == '\n' {
        0nat
    } else {
        1 + spec_first_nl(s.skip(1))
    }
}

/// The text split into lines, each prefixed with `indent` spaces and ended
/// with one line break (a trailing break does not produce an extra empty
/// line).
pub open spec fn spec_indented_lines(s: Seq<char>, indent: nat) -> Seq<char>
    decreases s.len(),
{
    if s.len() == 0 {
        Seq::empty()
    } else {
        let i = spec_first_nl(s);
        let adv: int = if i + 1 <= s.len() {
            i as int + 1
        } else {
            s.len() as int
        };
        spec_spaces(indent) + s.take(i as int) + seq!['\n'] + spec_indented_lines(
            s.skip(adv),
            indent,
        )
    }
}

/// `spec_first_nl` is the scan result: the first position that is a line
/// break, or the length.
proof fn lemma_first_nl_at(s: Seq<char>, i: int)
    requires
        0 <= i <= s.len(),
        forall|j: int| 0 <= j < i ==> s[j] != '\n',
        i < s.len() ==> s[i] == '\n',
    ensures
        spec_first_nl(s) == i,
    decreases i,
{
    if s.len() == 0 {
    } else if s[0] == '\n' {
        assert(i == 0);
    } else {
        assert(i >= 1);
        lemma_first_nl_at(s.skip(1), i - 1);
    }
}

/// Renders `chars` as indented lines.
fn indent_block(chars: &Vec<char>, indent: usize) -> (r: Vec<char>)
    requires
        indent <= 8,
    ensures
        r@ == spec_indented_lines(chars@, indent as nat),
{
    let mut r: Vec<char> = Vec::new();
    let mut pos: usize = 0;
    proof {
        assert(chars@.skip(0) =~= chars@);
        assert(Seq::<char>::empty() + spec_indented_lines(chars@, indent as nat)
            =~= spec_indented_lines(chars@, indent as nat));
    }
    while pos < chars.len()
        invariant
            pos <= chars@.len(),
            indent <= 8,
            spec_indented_lines(chars@, indent as nat) == r@ + spec_indented_lines(
                chars@.skip(pos as int),
                indent as nat,
            ),
        decreases chars@.len() - pos,
    {
        let ghost rest = chars@.skip(pos as int);
        let mut end = pos;
        while end < chars.len() && chars[end] != '\n'
            invariant
                pos <= end <= chars@.len(),
                forall|j: int| pos <= j < end ==> chars@[j] != '\n',
            decreases chars@.len() - end,
        {
            end += 1;
        }
        proof {
            lemma_first_nl_at(rest, end - pos);
        }

        let ghost r0 = r@;
        let mut k: usize = 0;
        while k < indent
            invariant
                k <= indent,
                r@ == r0 + spec_spaces(k as nat),
            decreases indent - k,
        {
            r.push(' ');
            proof {
                assert(r@ =~= r0 + spec_spaces((k + 1) as nat));
            }
            k += 1;
        }

        let mut t = pos;
        while t < end
            invariant
                pos <= t <= end <= chars@.len(),
                r@ == r0 + spec_spaces(indent as nat) + chars@.subrange(pos as int, t as int),
            decreases end - t,
        {
            r.push(chars[t]);
            proof {
                assert(r@ =~= r0 + spec_spaces(indent as nat) + chars@.subrange(
                    pos as int,
                    t + 1,
                ));
            }
            t += 1;
        }
        r.push('\n');

        let new_pos = if end < chars.len() {
            end + 1
        } else {
            end
        };
        proof {
            assert(rest.take(end - pos) =~= chars@.subrange(pos as int, end as int));
            assert(rest.skip(
                if end - pos + 1 <= rest.len() {
                    end - pos + 1
                } else {
                    rest.len() as int
                },
            ) =~= chars@.skip(new_pos as int));
            assert(r@ =~= r0 + (spec_spaces(indent as nat) + rest.take(end - pos) + seq!['\n']));
            assert(spec_indented_lines(chars@, indent as nat) == r@ + spec_indented_lines(
                chars@.skip(new_pos as int),
                indent as nat,
            ));
        }
        pos = new_pos;
    }
    proof {
        assert(chars@.skip(pos as int) =~= Seq::<char>::empty());
        assert(spec_indented_lines(chars@.skip(pos as int), indent as nat) == Seq::<char>::empty());
        assert(r@ =~= spec_indented_lines(chars@, indent as nat));
    }
    r
}

/// Typed violations of the writer protocol.
#[derive(Debug, PartialEq, Eq)]
pub enum SVGWriterError {
    MissingHeader,
    AlreadyHasHeader,
    AlreadyFinalised,
    NotFinalised,
    UnexpectedIndentationLevel { expected: usize, found: usize },
}

/// The document under construction: accumulated text, nesting level, and
/// the protocol flags.
pub struct SVGWriter {
    pub svg_string: Vec<char>,
    pub indentation_level: usize,
    pub indentation_size: usize,
    pub has_header: bool,
    pub finalised: bool,
}

/// The view-box attribute of the document header.
pub struct SVGViewBox {
    pub width: u64,
    pub height: u64,
}

/// The text of the view-box attribute.
pub open spec fn spec_viewbox_chars(width: nat, height: nat) -> Seq<char> {
    "viewBox=\"0 0 "@ + spec_dec_digits(width) + " "@ + spec_dec_digits(height) + "\""@
}

impl SVGItem for SVGViewBox {
    open spec fn svg_view(&self) -> Seq<char> {
        spec_viewbox_chars(self.width as nat, self.height as nat)
    }

    fn to_svg_string(&self) -> (s: String) {
        let mut out: Vec<char> = Vec::new();
        push_str_chars(&mut out, "viewBox=\"0 0 ");
        push_u64_decimal(&mut out, self.width);
        push_str_chars(&mut out, " ");
        push_u64_decimal(&mut out, self.height);
        push_str_chars(&mut out, "\"");
        proof {
            assert(out@ =~= self.svg_view());
        }
        chars_to_string(&out)
    }
}

/// The full header text: the XML prologue, a comment, the opening `svg`
/// element, and its three indented attributes.
pub open spec fn spec_svg_header(width: nat, height: nat) -> Seq<char> {
    "<?xml version=\"1.0\" encoding=\"UTF-8\" standalone=\"no\"?>\n"@
        + "<!-- Created with GraphDrs -->\n\n"@ + "<svg\n"@ + spec_indented_lines(
        spec_viewbox_chars(width, height),
        4,
    ) + spec_indented_lines("version=\"1.1\""@, 4) + spec_indented_lines(
        "xmlns=\"http://www.w3.org/2000/svg\">"@,
        4,
    )
}

impl SVGWriter {
    /// The nesting bookkeeping is in its expected shape: four spaces per
    /// level, one level at most, no nesting before the header, and no
    /// finalisation without a header.
    pub open spec fn wf(&self) -> bool {
        &&& self.indentation_size == 4
        &&& self.indentation_level <= 1
        &&& !self.has_header ==> self.indentation_level == 0
        &&& self.finalised ==> self.has_header
    }

    pub fn new() -> (w: SVGWriter)
        ensures
            w.wf(),
            w.svg_string@ == Seq::<char>::empty(),
            w.indentation_level == 0,
            w.indentation_size == 4,
            !w.has_header,
            !w.finalised,
    {
        SVGWriter {
            svg_string: Vec::new(),
            indentation_level: 0,
            indentation_size: 4,
            has_header: false,
            finalised: false,
        }
    }

    /// The accumulated document text.
    pub fn svg_content(&self) -> (s: String)
        ensures
            s@ == self.svg_string@,
    {
        chars_to_string(&self.svg_string)
    }

    /// Writes the document header; rejected if one was already written.
    pub fn write_header(&mut self, width: u64, height: u64) -> (r: Result<(), SVGWriterError>)
        requires
            old(self).wf(),
        ensures
            final(self).wf(),
            old(self).has_header ==> r == Err::<(), SVGWriterError>(
                SVGWriterError::AlreadyHasHeader,
            ) && *final(self) == *old(self),
            !old(self).has_header ==> {
                &&& r is Ok
                &&& final(self).svg_string@ == old(self).svg_string@ + spec_svg_header(
                    width as nat,
                    height as nat,
                )
                &&& final(self).has_header
                &&& final(self).indentation_level == 1
                &&& final(self).finalised == old(self).finalised
            },
    {
        if self.has_header {
            return Err(SVGWriterError::AlreadyHasHeader);
        }

        push_str_chars(
            &mut self.svg_string,
            "<?xml version=\"1.0\" encoding=\"UTF-8\" standalone=\"no\"?>\n",
        );
        push_str_chars(&mut self.svg_string, "<!-- Created with GraphDrs -->\n\n");
        push_str_chars(&mut self.svg_string, "<svg\n");
        self.indentation_level += 1;
        self.has_header = true;

        let view_box = SVGViewBox { width, height };
        let result_viewbox = self.add_item(&view_box);
        if result_viewbox.is_err() {
            return result_viewbox;
        }
        let version = String::from_str("version=\"1.1\"");
        let result_version = self.add_item(&version);
        if result_version.is_err() {
            return result_version;
        }
        let xmlns = String::from_str("xmlns=\"http://www.w3.org/2000/svg\">");
        let result_xmlns = self.add_item(&xmlns);
        if result_xmlns.is_err() {
            return result_xmlns;
        }
        proof {
            assert(self.svg_string@ =~= old(self).svg_string@ + spec_svg_header(
                width as nat,
                height as nat,
            ));
        }
        Ok(())
    }

    /// Closes the document; rejected without a header, after finalisation,
    /// or away from the top nesting level.
    pub fn finalise(&mut self) -> (r: Result<(), SVGWriterError>)
        requires
            old(self).wf(),
        ensures
            final(self).wf(),
            !old(self).has_header ==> r == Err::<(), SVGWriterError>(SVGWriterError::MissingHeader)
                && *final(self) == *old(self),
            old(self).has_header && old(self).finalised ==> r == Err::<(), SVGWriterError>(
                SVGWriterError::AlreadyFinalised,
            ) && *final(self) == *old(self),
            old(self).has_header && !old(self).finalised && old(self).indentation_level != 1 ==> r
                == Err::<(), SVGWriterError>(
                SVGWriterError::UnexpectedIndentationLevel {
                    expected: 1usize,
                    found: old(self).indentation_level,
                },
            ) && *final(self) == *old(self),
            old(self).has_header && !old(self).finalised && old(self).indentation_level == 1 ==> {
                &&& r is Ok
                &&& final(self).svg_string@ == old(self).svg_string@ + "</svg>\n"@
                &&& final(self).finalised
                &&& final(self).indentation_level == 0
                &&& final(self).has_header == old(self).has_header
            },
    {
        if !self.has_header {
            return Err(SVGWriterError::MissingHeader);
        }
        if self.finalised {
            return Err(SVGWriterError::AlreadyFinalised);
        }
        if self.indentation_level != 1 {
            return Err(
                SVGWriterError::UnexpectedIndentationLevel {
                    expected: 1,
                    found: self.indentation_level,
                },
            );
        }

        self.indentation_level -= 1;
        push_str_chars(&mut self.svg_string, "</svg>\n");
        self.finalised = true;

        Ok(())
    }

    /// Appends one item, each of its text lines indented by the current
    /// nesting depth; rejected before the header or after finalisation.
    pub fn add_item<T: SVGItem>(&mut self, item: &T) -> (r: Result<(), SVGWriterError>)
        requires
            old(self).wf(),
        ensures
            final(self).wf(),
            !old(self).has_header ==> r == Err::<(), SVGWriterError>(SVGWriterError::MissingHeader)
                && *final(self) == *old(self),
            old(self).has_header && old(self).finalised ==> r == Err::<(), SVGWriterError>(
                SVGWriterError::AlreadyFinalised,
            ) && *final(self) == *old(self),
            old(self).has_header && !old(self).finalised ==> {
                &&& r is Ok
                &&& final(self).svg_string@ == old(self).svg_string@ + spec_indented_lines(
                    item.svg_view(),
                    (old(self).indentation_level * old(self).indentation_size) as nat,
                )
                &&& final(self).has_header == old(self).has_header
                &&& final(self).finalised == old(self).finalised
                &&& final(self).indentation_level == old(self).indentation_level
            },
    {
        if !self.has_header {
            return Err(SVGWriterError::MissingHeader);
        }
        if self.finalised {
            return Err(SVGWriterError::AlreadyFinalised);
        }

        let rendered = item.to_svg_string();
        let line_chars = str_chars(rendered.as_str());
        let mut block = indent_block(&line_chars, self.indentation_level * self.indentation_size);
        self.svg_string.append(&mut block);
        proof {
            assert(self.svg_string@ =~= old(self).svg_string@ + spec_indented_lines(
                item.svg_view(),
                (old(self).indentation_level * old(self).indentation_size) as nat,
            ));
        }
        Ok(())
    }
}

impl SVGItem for String {
    open spec fn svg_view(&self) -> Seq<char> {
        self@
    }

    fn to_svg_string(&self) -> (s: String) {
        self.clone()
    }
}

/// The hex color attribute value: `#RRGGBB` (the alpha channel is not
/// written).
pub open spec fn spec_color_hex(c: Color) -> Seq<char> {
    seq!['#'] + spec_byte_hex(c.r) + spec_byte_hex(c.g) + spec_byte_hex(c.b)
}

impl SVGItem for Color {
    open spec fn svg_view(&self) -> Seq<char> {
        spec_color_hex(*self)
    }

    fn to_svg_string(&self) -> (s: String) {
        let mut out: Vec<char> = Vec::new();
        out.push('#');
        push_byte_hex(&mut out, self.r);
        push_byte_hex(&mut out, self.g);
        push_byte_hex(&mut out, self.b);
        proof {
            assert(out@ =~= self.svg_view());
        }
        chars_to_string(&out)
    }
}

/// The text element of a label.
pub open spec fn spec_label_svg(l: &DrawableLabel) -> Seq<char> {
    "<text x=\""@ + spec_dec_int(l.position.x as int) + "\" y=\""@ + spec_dec_int(
        l.position.y as int,
    ) + "\" fill=\""@ + spec_color_hex(l.color) + "\">"@ + l.content@ + "</text>"@
}

/// Appends the text element of a label.
fn push_label_svg(out: &mut Vec<char>, l: &DrawableLabel)
    ensures
        final(out)@ == old(out)@ + spec_label_svg(l),
{
    push_str_chars(out, "<text x=\"");
    push_i64_decimal(out, l.position.x);
    push_str_chars(out, "\" y=\"");
    push_i64_decimal(out, l.position.y);
    push_str_chars(out, "\" fill=\"");
    out.push('#');
    push_byte_hex(out, l.color.r);
    push_byte_hex(out, l.color.g);
    push_byte_hex(out, l.color.b);
    push_str_chars(out, "\">");
    push_str_chars(out, l.content.as_str());
    push_str_chars(out, "</text>");
    proof {
        assert(out@ =~= old(out)@ + spec_label_svg(l));
    }
}

impl SVGItem for DrawableLabel {
    open spec fn svg_view(&self) -> Seq<char> {
        spec_label_svg(self)
    }

    fn to_svg_string(&self) -> (s: String) {
        let mut out: Vec<char> = Vec::new();
        push_label_svg(&mut out, self);
        proof {
            assert(out@ =~= self.svg_view());
        }
        chars_to_string(&out)
    }
}

/// The circle element: center, radius, fill color.
pub open spec fn spec_circle_svg(position: Point, radius: int, color: Color) -> Seq<char> {
    "<circle cx=\""@ + spec_dec_int(position.x as int) + "\" cy=\""@ + spec_dec_int(
        position.y as int,
    ) + "\" r=\""@ + spec_dec_int(radius) + "\" fill=\""@ + spec_color_hex(color) + "\"/>\n"@
}

/// Appends one circle element.
fn push_circle_svg(out: &mut Vec<char>, position: Point, radius: i64, color: Color)
    ensures
        final(out)@ == old(out)@ + spec_circle_svg(position, radius as int, color),
{
    push_str_chars(out, "<circle cx=\"");
    push_i64_decimal(out, position.x);
    push_str_chars(out, "\" cy=\"");
    push_i64_decimal(out, position.y);
    push_str_chars(out, "\" r=\"");
    push_i64_decimal(out, radius);
    push_str_chars(out, "\" fill=\"");
    out.push('#');
    push_byte_hex(out, color.r);
    push_byte_hex(out, color.g);
    push_byte_hex(out, color.b);
    push_str_chars(out, "\"/>\n");
    proof {
        assert(out@ =~= old(out)@ + spec_circle_svg(position, radius as int, color));
    }
}

/// The text of a drawn vertex: border circle, main circle, optional label.
pub open spec fn spec_vertex_svg(v: &DrawableVertex) -> Seq<char> {
    spec_circle_svg(v.position, v.border_radius as int, v.border_color) + spec_circle_svg(
        v.position,
        v.main_radius as int,
        v.main_color,
    ) + (match v.label {
        Some(l) => spec_label_svg(&l),
        None => Seq::empty(),
    })
}

/// Appends the text of a drawn vertex.
fn push_vertex_svg(out: &mut Vec<char>, v: &DrawableVertex)
    ensures
        final(out)@ == old(out)@ + spec_vertex_svg(v),
{
    push_circle_svg(out, v.position, v.border_radius, v.border_color);
    push_circle_svg(out, v.position, v.main_radius, v.main_color);
    if let Some(label) = &v.label {
        push_label_svg(out, label);
    }
    proof {
        assert(out@ =~= old(out)@ + spec_vertex_svg(v));
    }
}

impl SVGItem for DrawableVertex {
    open spec fn svg_view(&self) -> Seq<char> {
        spec_vertex_svg(self)
    }

    fn to_svg_string(&self) -> (s: String) {
        let mut out: Vec<char> = Vec::new();
        push_vertex_svg(&mut out, self);
        proof {
            assert(out@ =~= self.svg_view());
        }
        chars_to_string(&out)
    }
}

/// The text of a drawn edge: a line element, then an optional label.
pub open spec fn spec_edge_svg(e: &DrawableEdge) -> Seq<char> {
    "<line x1=\""@ + spec_dec_int(e.start.x as int) + "\" y1=\""@ + spec_dec_int(e.start.y as int)
        + "\" x2=\""@ + spec_dec_int(e.end.x as int) + "\" y2=\""@ + spec_dec_int(e.end.y as int)
        + "\" stroke=\""@ + spec_color_hex(e.color) + "\" stroke-width=\""@ + spec_dec_int(
        e.width as int,
    ) + "\"/>\n"@ + (match e.label {
        Some(l) => spec_label_svg(&l),
        None => Seq::empty(),
    })
}

/// Appends the text of a drawn edge.
fn push_edge_svg(out: &mut Vec<char>, e: &DrawableEdge)
    ensures
        final(out)@ == old(out)@ + spec_edge_svg(e),
{
    push_str_chars(out, "<line x1=\"");
    push_i64_decimal(out, e.start.x);
    push_str_chars(out, "\" y1=\"");
    push_i64_decimal(out, e.start.y);
    push_str_chars(out, "\" x2=\"");
    push_i64_decimal(out, e.end.x);
    push_str_chars(out, "\" y2=\"");
    push_i64_decimal(out, e.end.y);
    push_str_chars(out, "\" stroke=\"");
    out.push('#');
    push_byte_hex(out, e.color.r);
    push_byte_hex(out, e.color.g);
    push_byte_hex(out, e.color.b);
    push_str_chars(out, "\" stroke-width=\"");
    push_i64_decimal(out, e.width);
    push_str_chars(out, "\"/>\n");
    if let Some(label) = &e.label {
        push_label_svg(out, label);
    }
    proof {
        assert(out@ =~= old(out)@ + spec_edge_svg(e));
    }
}

impl SVGItem for DrawableEdge {
    open spec fn svg_view(&self) -> Seq<char> {
        spec_edge_svg(self)
    }

    fn to_svg_string(&self) -> (s: String) {
        let mut out: Vec<char> = Vec::new();
        push_edge_svg(&mut out, self);
        proof {
            assert(out@ =~= self.svg_view());
        }
        chars_to_string(&out)
    }
}

/// The text of the first `k` drawn edges, concatenated.
pub open spec fn spec_edges_svg(edges: Seq<DrawableEdge>, k: int) -> Seq<char>
    decreases k,
{
    if k <= 0 {
        Seq::empty()
    } else {
        spec_edges_svg(edges, k - 1) + spec_edge_svg(&edges[k - 1])
    }
}

/// The text of the first `k` drawn vertices, concatenated.
pub open spec fn spec_vertices_svg(vertices: Seq<DrawableVertex>, k: int) -> Seq<char>
    decreases k,
{
    if k <= 0 {
        Seq::empty()
    } else {
        spec_vertices_svg(vertices, k - 1) + spec_vertex_svg(&vertices[k - 1])
    }
}

impl SVGItem for DrawableGraph {
    open spec fn svg_view(&self) -> Seq<char> {
        spec_edges_svg(self.edges@, self.edges@.len() as int) + spec_vertices_svg(
            self.vertices@,
            self.vertices@.len() as int,
        )
    }

    fn to_svg_string(&self) -> (s: String) {
        let mut out: Vec<char> = Vec::new();
        let mut j: usize = 0;
        while j < self.edges.len()
            invariant
                j <= self.edges@.len(),
                out@ == spec_edges_svg(self.edges@, j as int),
            decreases self.edges@.len() - j,
        {
            push_edge_svg(&mut out, &self.edges[j]);
            j += 1;
        }
        let mut i: usize = 0;
        while i < self.vertices.len()
            invariant
                i <= self.vertices@.len(),
                out@ == spec_edges_svg(self.edges@, self.edges@.len() as int) + spec_vertices_svg(
                    self.vertices@,
                    i as int,
                ),
            decreases self.vertices@.len() - i,
        {
            push_vertex_svg(&mut out, &self.vertices[i]);
            proof {
                assert(out@ =~= spec_edges_svg(self.edges@, self.edges@.len() as int)
                    + spec_vertices_svg(self.vertices@, i + 1));
            }
            i += 1;
        }
        proof {
            assert(out@ =~= self.svg_view());
        }
        chars_to_string(&out)
    }
}

} // verus!
