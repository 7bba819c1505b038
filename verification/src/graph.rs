//! The graph model and the compact printable-ASCII graph decoder.
//!
//! A graph is a vertex count plus an undirected edge list (smaller endpoint
//! first by convention, duplicates allowed). The decoder reads the classic
//! six-bits-per-byte adjacency encoding: the size byte (value minus 63) gives
//! the vertex count, and the remaining bytes fill the strict upper triangle
//! of the adjacency matrix column by column.

use vstd::prelude::*;

verus! {

use vstd::string::StringSliceAdditionalSpecFns;

/// An undirected graph: a vertex count and an edge list.
#[derive(Debug)]
pub struct Graph {
    pub vertices: usize,
    pub edges: Vec<(usize, usize)>,
}

impl Graph {
    /// Every edge joins two distinct vertices that are in range.
    pub open spec fn wf(&self) -> bool {
        forall|i: int| 0 <= i < self.edges@.len() ==> {
            let e = #[trigger] self.edges@[i];
            e.0 < self.vertices && e.1 < self.vertices && e.0 != e.1
        }
    }

    pub fn new(vertices: usize) -> (g: Graph)
        ensures
            g.vertices == vertices,
            g.edges@ == Seq::<(usize, usize)>::empty(),
            g.wf(),
    {
        Graph { vertices, edges: Vec::new() }
    }
}

#[derive(Debug, PartialEq, Eq)]
pub enum Graph6ParseError {
    EmptyString,
    InvalidStartCharacter(char),
    UnexpectedStringEnd,
    UnsupportedGraphSize { supported_size: u32 },
}

/// Triangular number: how many strict-upper-triangle cells lie in columns
/// below `v`, i.e. the bit index where column `v` starts.
pub open spec fn tri(v: int) -> int {
    v * (v - 1) / 2
}

/// The (neighbour, vertex) pair addressed by the `k`-th adjacency bit.
/// Bits walk the strict upper triangle column by column: (0,1), (0,2),
/// (1,2), (0,3), (1,3), (2,3), ...
pub open spec fn g6_pair_at(k: nat) -> (int, int)
    decreases k,
{
    if k == 0 {
        (0int, 1int)
    } else {
        let p = g6_pair_at((k - 1) as nat);
        if p.0 + 1 >= p.1 {
            (0int, p.1 + 1)
        } else {
            (p.0 + 1, p.1)
        }
    }
}

/// Value of the mask the byte-local bit cursor holds after `r` shifts.
pub open spec fn g6_mask(r: nat) -> u8 {
    if r == 0 { 32u8 }
    else if r == 1 { 16u8 }
    else if r == 2 { 8u8 }
    else if r == 3 { 4u8 }
    else if r == 4 { 2u8 }
    else { 1u8 }
}

/// The `k`-th adjacency bit of the payload: bit `5 - k % 6` (most
/// significant first) of payload byte `k / 6`, after subtracting the
/// printable offset 63 with wrap-around on bytes below 63.
pub open spec fn g6_bit(payload: Seq<u8>, k: int) -> bool {
    let v = (payload[k / 6] + 193) % 256;
    let r = k % 6;
    if r == 0 { v / 32 % 2 == 1 }
    else if r == 1 { v / 16 % 2 == 1 }
    else if r == 2 { v / 8 % 2 == 1 }
    else if r == 3 { v / 4 % 2 == 1 }
    else if r == 4 { v / 2 % 2 == 1 }
    else { v % 2 == 1 }
}

/// The edge list produced by the first `limit` adjacency bits of `payload`.
pub open spec fn g6_edge_seq(payload: Seq<u8>, limit: nat) -> Seq<(usize, usize)>
    decreases limit,
{
    if limit == 0 {
        Seq::empty()
    } else {
        let prev = g6_edge_seq(payload, (limit - 1) as nat);
        if g6_bit(payload, limit - 1) {
            let p = g6_pair_at((limit - 1) as nat);
            prev.push((p.0 as usize, p.1 as usize))
        } else {
            prev
        }
    }
}

/// Number of bits the decoder consumes for a graph of `n` vertices when
/// payload bytes remain: it stops once the walk leaves the triangle, but
/// always looks at the very first bit.
pub open spec fn g6_stop(n: nat) -> nat {
    if tri(n as int) < 1 { 1nat } else { tri(n as int) as nat }
}

/// Bits actually consumed from a payload of `len` bytes for `n` vertices.
pub open spec fn g6_limit(len: nat, n: nat) -> nat {
    if len == 0 {
        0nat
    } else if 6 * len <= g6_stop(n) {
        6 * len
    } else {
        g6_stop(n)
    }
}

/// How the vertex count is read from the raw bytes. The leading byte must be
/// printable (63..=126) or the escape byte `>`, which shifts the size byte
/// ten positions later; value 126 asks for an extended size, which is not
/// supported. A size byte below 63 (reachable only behind the escape byte)
/// is reported as an invalid character rather than wrapped.
pub open spec fn g6_size_of(b: Seq<u8>) -> Result<usize, Graph6ParseError> {
    if b.len() == 0 {
        Err(Graph6ParseError::EmptyString)
    } else if !(63 <= b[0] <= 126) && b[0] != 62 {
        Err(Graph6ParseError::InvalidStartCharacter(b[0] as char))
    } else {
        let i: int = if b[0] == 62 { 10 } else { 0 };
        if i >= b.len() {
            Err(Graph6ParseError::UnexpectedStringEnd)
        } else if b[i] < 63 {
            Err(Graph6ParseError::InvalidStartCharacter(b[i] as char))
        } else if b[i] < 126 {
            Ok((b[i] - 63) as usize)
        } else {
            Err(Graph6ParseError::UnsupportedGraphSize { supported_size: 62 })
        }
    }
}

/// Index of the first payload byte, once the size has been read.
pub open spec fn g6_payload_start(b: Seq<u8>) -> int {
    if b[0] == 62 { 11int } else { 1int }
}

/// The full decoding relation: the graph a well-formed header's bytes denote.
pub open spec fn g6_decodes_to(b: Seq<u8>, g: Graph) -> bool {
    match g6_size_of(b) {
        Ok(n) => {
            let payload = b.skip(g6_payload_start(b));
            g.vertices == n && g.edges@ == g6_edge_seq(
                payload,
                g6_limit(payload.len(), n as nat),
            )
        },
        Err(_) => false,
    }
}

/// Structure of the `k`-th pair: its endpoints are ordered and the bit
/// index decomposes as the triangular base of the column plus the row.
pub proof fn lemma_g6_pair_at_props(k: nat)
    ensures
        0 <= g6_pair_at(k).0 < g6_pair_at(k).1,
        tri(g6_pair_at(k).1) + g6_pair_at(k).0 == k,
    decreases k,
{
    if k == 0 {
    } else {
        lemma_g6_pair_at_props((k - 1) as nat);
        let p = g6_pair_at((k - 1) as nat);
        if p.0 + 1 >= p.1 {
            assert(tri(p.1 + 1) == tri(p.1) + p.1) by (nonlinear_arith);
        }
    }
}

/// The triangular base is monotone in the column index.
pub proof fn lemma_tri_monotone(a: int, b: int)
    requires
        0 <= a <= b,
    ensures
        tri(a) <= tri(b),
{
    assert(a * (a - 1) <= b * (b - 1)) by (nonlinear_arith)
        requires 0 <= a <= b;
}

/// The smallest triangular bases, as plain values.
pub proof fn lemma_tri_small()
    ensures
        tri(0) == 0,
        tri(1) == 0,
        tri(2) == 1,
        tri(62) == 1891,
        tri(63) == 1953,
{
}

/// The walk leaves an `n`-vertex graph's triangle exactly at bit `tri(n)`
/// (every bit index at or beyond the triangle, and no earlier one, addresses
/// a column outside the graph).
pub proof fn lemma_g6_pair_leaves(n: nat, k: nat)
    ensures
        g6_pair_at(k).1 >= n <==> k >= tri(n as int) || n <= 1,
{
    lemma_g6_pair_at_props(k);
    let p = g6_pair_at(k);
    if p.1 >= n {
        if n >= 2 {
            lemma_tri_monotone(n as int, p.1);
        }
    } else {
        assert(n >= 2);
        assert(tri(p.1 + 1) == tri(p.1) + p.1) by (nonlinear_arith);
        lemma_tri_monotone(p.1 + 1, n as int);
        assert(k < tri(n as int));
    }
}

/// Reads the vertex count from a compact-encoded graph string.
///
/// Returns exactly what `g6_size_of` says of the string's bytes; any
/// successful count is at most 62.
pub fn graph6_number_of_vertices(g6_string: &str) -> (r: Result<usize, Graph6ParseError>)
    ensures
        r == g6_size_of(g6_string.spec_bytes()),
        r matches Ok(n) ==> n <= 62,
{
    let g6_bytes = g6_string.as_bytes();

    if g6_bytes.len() == 0 {
        return Err(Graph6ParseError::EmptyString);
    }

    let start_char = g6_bytes[0];

    if !(63 <= start_char && start_char <= 126) && start_char != 62u8 {
        return Err(Graph6ParseError::InvalidStartCharacter(start_char as char));
    }

    let mut index: usize = 0;

    if g6_bytes[0] == 62u8 {
        index += 10;
        if index >= g6_bytes.len() {
            return Err(Graph6ParseError::UnexpectedStringEnd);
        }
    }

    let size_byte = g6_bytes[index];
    if size_byte < 63 {
        return Err(Graph6ParseError::InvalidStartCharacter(size_byte as char));
    }
    if size_byte < 126 {
        Ok((size_byte - 63) as usize)
    } else {
        Err(Graph6ParseError::UnsupportedGraphSize { supported_size: 62 })
    }
}

/// The byte-local bit tests the decoder makes agree with the arithmetic
/// reading of the same bit.
proof fn lemma_mask_bits(x: u8)
    ensures
        ((x & 32) != 0) == (x / 32 % 2 == 1),
        ((x & 16) != 0) == (x / 16 % 2 == 1),
        ((x & 8) != 0) == (x / 8 % 2 == 1),
        ((x & 4) != 0) == (x / 4 % 2 == 1),
        ((x & 2) != 0) == (x / 2 % 2 == 1),
        ((x & 1) != 0) == (x % 2 == 1),
{
    assert(((x & 32) != 0) == (x / 32 % 2 == 1)) by (bit_vector);
    assert(((x & 16) != 0) == (x / 16 % 2 == 1)) by (bit_vector);
    assert(((x & 8) != 0) == (x / 8 % 2 == 1)) by (bit_vector);
    assert(((x & 4) != 0) == (x / 4 % 2 == 1)) by (bit_vector);
    assert(((x & 2) != 0) == (x / 2 % 2 == 1)) by (bit_vector);
    assert(((x & 1) != 0) == (x % 2 == 1)) by (bit_vector);
}

/// Decodes a compact printable-ASCII graph string.
///
/// On a malformed header the typed error of `g6_size_of` comes back; on a
/// readable header the result's vertex count is the decoded size and its
/// edge list is exactly the adjacency bits the payload carries, in walk
/// order.
pub fn parse_graph6_string(g6_string: &str) -> (r: Result<Graph, Graph6ParseError>)
    ensures
        match g6_size_of(g6_string.spec_bytes()) {
            Ok(_) => r matches Ok(g) && g6_decodes_to(g6_string.spec_bytes(), g),
            Err(e) => r == Err::<Graph, Graph6ParseError>(e),
        },
{
    let g6_bytes = g6_string.as_bytes();
    let ghost b = g6_string.spec_bytes();

    let vertices = match graph6_number_of_vertices(g6_string) {
        Ok(v) => v,
        Err(e) => {
            return Err(e);
        },
    };

    let mut start_index: usize = 0;
    if g6_bytes[start_index] == 62u8 {
        start_index += 10;
    }

    if vertices <= 62 {
        start_index += 1;
    } else if vertices <= 64 {
        start_index += 4;
    } else {
        return Err(Graph6ParseError::UnsupportedGraphSize { supported_size: 64 });
    }

    let ghost payload = b.skip(start_index as int);
    assert(start_index as int == g6_payload_start(b));

    let mut graph = Graph::new(vertices);
    let mut current_vertex: usize = 1;
    let mut current_neighbour: usize = 0;
    let ghost mut k: nat = 0nat;

    let mut index = start_index;
    'outer: while index < g6_bytes.len()
        invariant_except_break
            g6_bytes@ == b,
            start_index <= index <= g6_bytes.len(),
            vertices <= 62,
            payload == b.skip(start_index as int),
            k == 6 * (index - start_index),
            k < g6_stop(vertices as nat),
            (current_neighbour as int, current_vertex as int) == g6_pair_at(k),
            graph.vertices == vertices,
            graph.edges@ == g6_edge_seq(payload, k),
        ensures
            graph.vertices == vertices,
            graph.edges@ == g6_edge_seq(payload, g6_limit(payload.len(), vertices as nat)),
        decreases g6_bytes.len() - index,
    {
        let mut current_bit: u8 = 32;
        let byte_val = g6_bytes[index];
        let current_bits: u8 = if byte_val >= 63 { byte_val - 63 } else { byte_val + 193 };
        assert(current_bits == (b[index as int] + 193) % 256);

        let ghost mut r: nat = 0nat;
        while current_bit != 0
            invariant_except_break
                g6_bytes@ == b,
                start_index <= index < g6_bytes.len(),
                vertices <= 62,
                payload == b.skip(start_index as int),
                r <= 6,
                current_bit == (if r < 6 { g6_mask(r) } else { 0u8 }),
                current_bits == (b[index as int] + 193) % 256,
                k == 6 * (index - start_index) + r,
                k < g6_stop(vertices as nat),
                (current_neighbour as int, current_vertex as int) == g6_pair_at(k),
                graph.vertices == vertices,
                graph.edges@ == g6_edge_seq(payload, k),
            ensures
                k == 6 * (index - start_index) + 6,
                k < g6_stop(vertices as nat),
                (current_neighbour as int, current_vertex as int) == g6_pair_at(k),
                graph.vertices == vertices,
                graph.edges@ == g6_edge_seq(payload, k),
            decreases current_bit,
        {
            proof {
                lemma_mask_bits(current_bits);
                assert(payload[k as int / 6] == b[index as int]);
                lemma_g6_pair_at_props(k);
            }
            if (current_bits & current_bit) != 0 {
                graph.edges.push((current_neighbour, current_vertex));
            }
            proof {
                assert(g6_bit(payload, k as int) == ((current_bits & current_bit) != 0));
                assert(graph.edges@ == g6_edge_seq(payload, k + 1));
            }

            proof {
                if vertices >= 2 {
                    lemma_tri_monotone(2, vertices as int);
                    lemma_g6_pair_leaves(vertices as nat, k);
                    assert(current_vertex < vertices);
                } else {
                    assert(k == 0);
                }
            }
            current_neighbour += 1;
            if current_neighbour >= current_vertex {
                current_vertex += 1;
                current_neighbour = 0;
            }
            proof {
                k = k + 1;
                r = r + 1;
                assert((current_neighbour as int, current_vertex as int) == g6_pair_at(k));
            }

            if current_vertex >= vertices {
                proof {
                    lemma_g6_pair_leaves(vertices as nat, k);
                    lemma_g6_pair_leaves(vertices as nat, (k - 1) as nat);
                    assert(k == g6_stop(vertices as nat));
                    assert(k <= 6 * (payload.len() as int));
                }
                break 'outer;
            }
            proof {
                lemma_g6_pair_leaves(vertices as nat, k);
            }

            current_bit = current_bit / 2;
        }
        index += 1;
    }

    Ok(graph)
}

} // verus!
// The reference encoder and the round-trip law live in a separate span of
// the module: encoding fills the same strict-upper-triangle walk the
// decoder reads, six bits per printable byte.

verus! {

use crate::graph_interface::edge_list_contains;
use crate::text::chars_to_string;


/// Whether the edge list joins `u` and `v` in either endpoint order.
pub open spec fn has_g6_edge(edges: Seq<(usize, usize)>, u: int, v: int) -> bool {
    edges.contains(((u as usize), (v as usize))) || edges.contains(((v as usize), (u as usize)))
}

/// The adjacency bit the encoder sets at walk position `k`.
pub open spec fn g6_encode_bit(edges: Seq<(usize, usize)>, k: nat) -> bool {
    has_g6_edge(edges, g6_pair_at(k).0, g6_pair_at(k).1)
}

/// The bit value written at walk position `k` for an `n`-vertex graph:
/// zero outside the triangle.
pub open spec fn g6_eb(edges: Seq<(usize, usize)>, n: int, k: int) -> int {
    if 0 <= k < tri(n) && g6_encode_bit(edges, k as nat) {
        1int
    } else {
        0int
    }
}

/// The first `r` bits of payload byte `i`, packed most significant first.
pub open spec fn g6_byte_prefix(edges: Seq<(usize, usize)>, n: int, i: int, r: nat) -> int
    decreases r,
{
    if r == 0 {
        0int
    } else {
        2 * g6_byte_prefix(edges, n, i, (r - 1) as nat) + g6_eb(edges, n, 6 * i + r - 1)
    }
}

/// Payload byte `i`: the printable offset plus its six bits.
pub open spec fn g6_encode_byte(edges: Seq<(usize, usize)>, n: int, i: int) -> u8 {
    (63 + g6_byte_prefix(edges, n, i, 6)) as u8
}

/// Number of payload bytes for an `n`-vertex graph.
pub open spec fn g6_encode_payload_len(n: int) -> int {
    (tri(n) + 5) / 6
}

/// The whole encoding: the size byte, then the packed adjacency bits.
pub open spec fn spec_encode_g6(n: int, edges: Seq<(usize, usize)>) -> Seq<u8> {
    seq![(n + 63) as u8] + Seq::new(
        g6_encode_payload_len(n) as nat,
        |i: int| g6_encode_byte(edges, n, i),
    )
}

/// The largest value `r` packed bits can reach.
pub open spec fn g6_prefix_cap(r: nat) -> int {
    if r == 0 { 0int }
    else if r == 1 { 1int }
    else if r == 2 { 3int }
    else if r == 3 { 7int }
    else if r == 4 { 15int }
    else if r == 5 { 31int }
    else { 63int }
}

/// A packed prefix stays within its bit capacity.
pub proof fn lemma_g6_prefix_bound(edges: Seq<(usize, usize)>, n: int, i: int, r: nat)
    requires
        r <= 6,
    ensures
        0 <= g6_byte_prefix(edges, n, i, r) <= g6_prefix_cap(r),
    decreases r,
{
    if r > 0 {
        lemma_g6_prefix_bound(edges, n, i, (r - 1) as nat);
    }
}

/// The walk position of the bit that carries edge `(u, v)` (`u < v`):
/// `tri(v) + u`.
pub proof fn lemma_g6_pair_unique(k: nat, u: int, v: int)
    requires
        0 <= u < v,
        tri(v) + u == k,
    ensures
        g6_pair_at(k) == (u, v),
{
    lemma_g6_pair_at_props(k);
    let p = g6_pair_at(k);
    if p.1 < v {
        assert(tri(p.1 + 1) == tri(p.1) + p.1) by (nonlinear_arith);
        lemma_tri_monotone(p.1 + 1, v);
        assert(false);
    }
    if p.1 > v {
        assert(tri(v + 1) == tri(v) + v) by (nonlinear_arith);
        lemma_tri_monotone(v + 1, p.1);
        assert(false);
    }
}

/// Membership in the decoded edge list is exactly "some consumed bit is set
/// at this pair's walk position".
pub proof fn lemma_g6_edge_seq_contains(payload: Seq<u8>, limit: nat, u: usize, v: usize)
    requires
        limit <= 1953,
    ensures
        g6_edge_seq(payload, limit).contains((u, v)) <==> exists|k: int|
            0 <= k < limit && g6_bit(payload, k) && g6_pair_at(k as nat) == (u as int, v as int),
    decreases limit,
{
    if limit == 0 {
        assert(g6_edge_seq(payload, limit).len() == 0);
        assert(!g6_edge_seq(payload, limit).contains((u, v)));
    } else {
        lemma_g6_edge_seq_contains(payload, (limit - 1) as nat, u, v);
        let prev = g6_edge_seq(payload, (limit - 1) as nat);
        let cur = g6_edge_seq(payload, limit);
        let kl = limit - 1;
        lemma_g6_pair_at_props(kl as nat);
        let p = g6_pair_at(kl as nat);
        if p.1 >= 63 {
            lemma_tri_monotone(63, p.1);
            assert(false);
        }
        if g6_bit(payload, kl) {
            let pe = (p.0 as usize, p.1 as usize);
            assert(cur == prev.push(pe));
            if cur.contains((u, v)) {
                let w = choose|w: int| 0 <= w < cur.len() && cur[w] == (u, v);
                if w < prev.len() {
                    assert(prev[w] == (u, v));
                    assert(prev.contains((u, v)));
                } else {
                    assert(cur[w] == pe);
                    assert(g6_pair_at(kl as nat) == (u as int, v as int));
                }
            }
            if exists|k: int|
                0 <= k < limit && g6_bit(payload, k) && g6_pair_at(k as nat) == (
                u as int,
                v as int,
            ) {
                let k = choose|k: int|
                    0 <= k < limit && g6_bit(payload, k) && g6_pair_at(k as nat) == (
                    u as int,
                    v as int,
                );
                if k < kl {
                    assert(prev.contains((u, v)));
                    let w = choose|w: int| 0 <= w < prev.len() && prev[w] == (u, v);
                    assert(cur[w] == (u, v));
                    assert(cur.contains((u, v)));
                } else {
                    assert(cur[prev.len() as int] == pe);
                    assert(pe == (u, v));
                    assert(cur.contains((u, v)));
                }
            }
        } else {
            assert(cur == prev);
        }
    }
}

/// Encodes a graph of at most 62 vertices into its compact printable
/// string: the size byte, then the strict-upper-triangle adjacency bits,
/// most significant first, zero-padded to whole bytes.
pub fn encode_graph6(graph: &Graph) -> (s: String)
    requires
        graph.wf(),
        graph.vertices <= 62,
    ensures
        s@.len() == spec_encode_g6(graph.vertices as int, graph.edges@).len(),
        forall|i: int|
            0 <= i < s@.len() ==> s@[i] == (spec_encode_g6(
                graph.vertices as int,
                graph.edges@,
            )[i] as char),
        vstd::utf8::encode_utf8(s@) == spec_encode_g6(graph.vertices as int, graph.edges@),
{
    let n = graph.vertices;
    let ghost edges = graph.edges@;
    let tn = if n == 0 {
        proof {
            lemma_tri_small();
        }
        0
    } else {
        proof {
            assert(n * (n - 1) <= 62 * 61) by (nonlinear_arith)
                requires 1 <= n <= 62;
        }
        n * (n - 1) / 2
    };
    let payload_len = (tn + 5) / 6;
    let total = payload_len * 6;
    proof {
        lemma_tri_monotone(n as int, 62);
        assert(total <= 1896);
    }

    let mut out: Vec<char> = Vec::new();
    out.push(((n as u8) + 63) as char);

    let mut current_vertex: usize = 1;
    let mut current_neighbour: usize = 0;
    let mut acc: u8 = 0;
    let mut r: usize = 0;
    let mut k: usize = 0;
    while k < total
        invariant
            graph.wf(),
            edges == graph.edges@,
            n == graph.vertices,
            n <= 62,
            tn == tri(n as int),
            payload_len == g6_encode_payload_len(n as int),
            total == 6 * payload_len,
            total <= 1896,
            k <= total,
            r < 6,
            out@.len() >= 1,
            k == 6 * (out@.len() - 1) + r,
            out@[0] == (((n + 63) as u8) as char),
            forall|t: int|
                1 <= t < out@.len() ==> out@[t] == (g6_encode_byte(edges, n as int, t - 1) as char),
            acc as int == g6_byte_prefix(edges, n as int, out@.len() - 1, r as nat),
            (current_neighbour as int, current_vertex as int) == g6_pair_at(k as nat),
        decreases total - k,
    {
        proof {
            lemma_g6_pair_at_props(k as nat);
            if current_vertex >= 63 {
                lemma_tri_monotone(63, current_vertex as int);
                assert(false);
            }
            if n >= 2 {
                lemma_tri_monotone(2, n as int);
            }
            lemma_g6_pair_leaves(n as nat, k as nat);
            lemma_g6_prefix_bound(edges, n as int, out@.len() - 1, r as nat);
        }
        let bit_set = if current_vertex < n {
            edge_list_contains(&graph.edges, (current_neighbour, current_vertex))
                || edge_list_contains(&graph.edges, (current_vertex, current_neighbour))
        } else {
            false
        };
        proof {
            assert((if bit_set {
                1int
            } else {
                0int
            }) == g6_eb(edges, n as int, k as int));
        }
        acc = acc * 2 + (if bit_set {
            1
        } else {
            0
        });

        current_neighbour += 1;
        if current_neighbour >= current_vertex {
            current_vertex += 1;
            current_neighbour = 0;
        }
        r += 1;
        k += 1;

        if r == 6 {
            proof {
                lemma_g6_prefix_bound(edges, n as int, out@.len() - 1, 6);
            }
            out.push((acc + 63) as char);
            acc = 0;
            r = 0;
        }
    }

    proof {
        assert(r == 0);
        assert(out@.len() == 1 + payload_len);
        let b = spec_encode_g6(n as int, edges);
        assert(b.len() == 1 + payload_len);
        assert(forall|i: int| 0 <= i < out@.len() ==> out@[i] == (b[i] as char));
        assert forall|i: int| 0 <= i < out@.len() implies '\0' <= #[trigger] out@[i]
            <= '\u{7f}' by {
            if i >= 1 {
                lemma_g6_prefix_bound(edges, n as int, i - 1, 6);
            }
            assert(b[i] <= 126);
        }
        assert(vstd::utf8::is_ascii_chars(out@));
        vstd::utf8::is_ascii_chars_encode_utf8(out@);
        assert(vstd::utf8::encode_utf8(out@) =~= b);
    }
    chars_to_string(&out)
}

/// Round-trip law: decoding an encoded graph yields the same vertex count,
/// and an edge list that holds exactly the canonically ordered pairs the
/// graph joins (duplicates collapse, endpoint order is normalized). Stated
/// for every endpoint pair `(u, v)`.
#[verifier::rlimit(50)]
pub proof fn lemma_g6_round_trip(g: &Graph, u: usize, v: usize)
    requires
        g.wf(),
        g.vertices <= 62,
    ensures
        ({
            let b = spec_encode_g6(g.vertices as int, g.edges@);
            let payload = b.skip(g6_payload_start(b));
            let decoded = g6_edge_seq(payload, g6_limit(payload.len(), g.vertices as nat));
            &&& g6_size_of(b) == Ok::<usize, Graph6ParseError>(g.vertices)
            &&& decoded.contains((u, v)) <==> (u < v && v < g.vertices && has_g6_edge(
                g.edges@,
                u as int,
                v as int,
            ))
        }),
{
    let n = g.vertices as int;
    let edges = g.edges@;
    let b = spec_encode_g6(n, edges);
    let plen = g6_encode_payload_len(n);
    assert(b[0] == (n + 63) as u8);
    assert(63 <= b[0] <= 125);
    assert(g6_size_of(b) == Ok::<usize, Graph6ParseError>(g.vertices));
    assert(g6_payload_start(b) == 1);
    let payload = b.skip(g6_payload_start(b));
    assert(payload =~= Seq::new(plen as nat, |i: int| g6_encode_byte(edges, n, i)));
    let limit = g6_limit(payload.len(), g.vertices as nat);

    if n <= 1 {
        assert(g.edges@.len() == 0) by {
            if g.edges@.len() > 0 {
                assert(g.edges@[0].0 < g.vertices && g.edges@[0].1 < g.vertices && g.edges@[0].0
                    != g.edges@[0].1);
            }
        }
        lemma_tri_small();
        assert(tri(n) <= 0);
        assert(plen == 0);
        assert(limit == 0);
        assert(g6_edge_seq(payload, limit).len() == 0);
        assert(!g6_edge_seq(payload, limit).contains((u, v)));
        if edges.contains((u, v)) || edges.contains((v, u)) {
            let w = choose|w: int|
                0 <= w < edges.len() && (edges[w] == (u, v) || edges[w] == (v, u));
            assert(false);
        }
    } else {
        lemma_tri_monotone(2, n);
        assert(tri(n) >= 1);
        vstd::arithmetic::div_mod::lemma_fundamental_div_mod(tri(n) + 5, 6);
        assert(6 * plen >= tri(n));
        assert(plen >= 1);
        lemma_tri_monotone(n, 63);
        assert(limit == tri(n)) by {
            assert(g6_stop(g.vertices as nat) == tri(n));
        }

        assert forall|k: int| 0 <= k < tri(n) implies g6_bit(payload, k) == g6_encode_bit(
            edges,
            k as nat,
        ) by {
            lemma_g6_bit_of_encoded(edges, n, payload, k);
        }

        lemma_g6_edge_seq_contains(payload, limit, u, v);
        if u < v && v < g.vertices && has_g6_edge(edges, u as int, v as int) {
            let k = tri(v as int) + u;
            lemma_g6_pair_unique(k as nat, u as int, v as int);
            assert(tri(v as int + 1) == tri(v as int) + v) by (nonlinear_arith);
            lemma_tri_monotone(v as int + 1, n);
            assert(0 <= k < tri(n));
            assert(g6_bit(payload, k) && g6_pair_at(k as nat) == (u as int, v as int));
            assert(g6_edge_seq(payload, limit).contains((u, v)));
        }
        if g6_edge_seq(payload, limit).contains((u, v)) {
            let k = choose|k: int|
                0 <= k < limit && g6_bit(payload, k) && g6_pair_at(k as nat) == (
                u as int,
                v as int,
            );
            lemma_g6_pair_at_props(k as nat);
            lemma_g6_pair_leaves(g.vertices as nat, k as nat);
            assert(u < v && v < g.vertices);
            assert(has_g6_edge(edges, u as int, v as int));
        }
    }
}

/// Reading bit `k` back from the encoded payload gives the encoder's bit.
proof fn lemma_g6_bit_of_encoded(edges: Seq<(usize, usize)>, n: int, payload: Seq<u8>, k: int)
    requires
        0 <= k < tri(n),
        payload =~= Seq::new(g6_encode_payload_len(n) as nat, |i: int| g6_encode_byte(edges, n, i)),
        6 * g6_encode_payload_len(n) >= tri(n),
    ensures
        g6_bit(payload, k) == g6_encode_bit(edges, k as nat),
{
    let i = k / 6;
    let r = k % 6;
    vstd::arithmetic::div_mod::lemma_fundamental_div_mod(k, 6);
    assert(0 <= i < g6_encode_payload_len(n));
    assert(payload[i] == g6_encode_byte(edges, n, i));
    lemma_g6_prefix_bound(edges, n, i, 6);
    let p = g6_byte_prefix(edges, n, i, 6);
    assert(payload[i] == 63 + p);
    assert((payload[i] + 193) % 256 == p);

    let e0 = g6_eb(edges, n, 6 * i);
    let e1 = g6_eb(edges, n, 6 * i + 1);
    let e2 = g6_eb(edges, n, 6 * i + 2);
    let e3 = g6_eb(edges, n, 6 * i + 3);
    let e4 = g6_eb(edges, n, 6 * i + 4);
    let e5 = g6_eb(edges, n, 6 * i + 5);
    assert(g6_byte_prefix(edges, n, i, 0) == 0);
    assert(g6_byte_prefix(edges, n, i, 1) == e0);
    assert(g6_byte_prefix(edges, n, i, 2) == 2 * e0 + e1);
    assert(g6_byte_prefix(edges, n, i, 3) == 4 * e0 + 2 * e1 + e2);
    assert(g6_byte_prefix(edges, n, i, 4) == 8 * e0 + 4 * e1 + 2 * e2 + e3);
    assert(g6_byte_prefix(edges, n, i, 5) == 16 * e0 + 8 * e1 + 4 * e2 + 2 * e3 + e4);
    assert(p == 32 * e0 + 16 * e1 + 8 * e2 + 4 * e3 + 2 * e4 + e5);

    assert(g6_eb(edges, n, k) == (if g6_encode_bit(edges, k as nat) {
        1int
    } else {
        0int
    }));
}

} // verus!
