//! Export of a voxel model as the text of a Wavefront OBJ mesh.
//!
//! Every voxel becomes a unit cube of its own: eight vertices and twelve
//! triangles, sharing no vertex with any other voxel. The model is centred on
//! the origin, so coordinates are halves of integers; they are kept in half
//! units and written exactly.

use vstd::prelude::*;
use vstd::string::StringExecFns;
use crate::decimal::{
    decimal, half_decimal, lemma_decimal_is_one_line, lemma_half_decimal_is_one_line, push_decimal,
    push_half_decimal,
};
use crate::shapes::{Shape, VoxelData};

verus! {

/// The name of the file that an export is written to.
pub const EXPORT_FILE_NAME: &'static str = "exported_shape.obj";

/// The corners of the unit cube in the order its vertices are written: the
/// bottom face, then the top face in the same order.
pub open spec fn corner(j: int) -> (int, int, int) {
    if j == 0 {
        (0, 0, 0)
    } else if j == 1 {
        (1, 0, 0)
    } else if j == 2 {
        (1, 0, 1)
    } else if j == 3 {
        (0, 0, 1)
    } else if j == 4 {
        (0, 1, 0)
    } else if j == 5 {
        (1, 1, 0)
    } else if j == 6 {
        (1, 1, 1)
    } else {
        (0, 1, 1)
    }
}

/// The corners of the twelve triangles: two each for the bottom, top, front,
/// back, left and right face of the cube.
pub open spec fn triangle(f: int) -> (int, int, int) {
    if f == 0 {
        (0, 1, 2)
    } else if f == 1 {
        (0, 2, 3)
    } else if f == 2 {
        (4, 7, 6)
    } else if f == 3 {
        (4, 6, 5)
    } else if f == 4 {
        (0, 4, 5)
    } else if f == 5 {
        (0, 5, 1)
    } else if f == 6 {
        (3, 2, 6)
    } else if f == 7 {
        (3, 6, 7)
    } else if f == 8 {
        (0, 3, 7)
    } else if f == 9 {
        (0, 7, 4)
    } else if f == 10 {
        (1, 5, 6)
    } else {
        (1, 6, 2)
    }
}

/// Vertex `j` of the cube of `voxel`, in half units: the voxel's corner moved
/// by half the dimensions of the grid.
pub open spec fn vertex(shape: Shape, voxel: (i32, i32, i32), j: int) -> (int, int, int) {
    (
        2 * (voxel.0 + corner(j).0) - shape.width,
        2 * (voxel.1 + corner(j).1) - shape.height,
        2 * (voxel.2 + corner(j).2) - shape.depth,
    )
}

/// The number under which vertex `j` of the voxel at position `i` is known to
/// the faces: vertices are counted from 1 through the whole text.
pub open spec fn vertex_number(i: int, j: int) -> int {
    8 * i + j + 1
}

/// Triangle `f` of the voxel at position `i`, by vertex numbers.
pub open spec fn face(i: int, f: int) -> (int, int, int) {
    (
        vertex_number(i, triangle(f).0),
        vertex_number(i, triangle(f).1),
        vertex_number(i, triangle(f).2),
    )
}

/// The first comment line: a fixed banner.
pub open spec fn banner_line() -> Seq<char> {
    "# 3D Voxel Sculptor Export"@
}

/// The second comment line: the kind of the shape.
pub open spec fn kind_line(shape: Shape) -> Seq<char> {
    "# Shape: "@ + shape.shape_type.name_view()
}

/// The third comment line: the dimensions of the shape.
pub open spec fn dimensions_line(shape: Shape) -> Seq<char> {
    "# Dimensions: "@ + decimal(shape.width as nat) + " x "@ + decimal(shape.height as nat)
        + " x "@ + decimal(shape.depth as nat)
}

/// The three comment lines: the banner, the kind of the shape, its dimensions.
pub open spec fn header_lines(shape: Shape) -> Seq<Seq<char>> {
    seq![banner_line(), kind_line(shape), dimensions_line(shape)]
}

/// The line of a vertex given in half units.
pub open spec fn vertex_line(v: (int, int, int)) -> Seq<char> {
    "v "@ + half_decimal(v.0) + " "@ + half_decimal(v.1) + " "@ + half_decimal(v.2)
}

/// The line of a triangle given by vertex numbers.
pub open spec fn face_line(t: (int, int, int)) -> Seq<char> {
    "f "@ + decimal(t.0 as nat) + " "@ + decimal(t.1 as nat) + " "@ + decimal(t.2 as nat)
}

/// Line `j` of the voxel at position `i`: its eight vertices, then its twelve faces.
pub open spec fn voxel_line(shape: Shape, voxel: (i32, i32, i32), i: int, j: int) -> Seq<char> {
    if j < 8 {
        vertex_line(vertex(shape, voxel, j))
    } else {
        face_line(face(i, j - 8))
    }
}

/// The lines of the mesh: the header, then the lines of each voxel in turn.
pub open spec fn obj_lines(shape: Shape, voxels: Seq<(i32, i32, i32)>) -> Seq<Seq<char>> {
    Seq::new(
        3 + 20 * voxels.len(),
        |k: int|
            if k < 3 {
                header_lines(shape)[k]
            } else {
                voxel_line(shape, voxels[(k - 3) / 20], (k - 3) / 20, (k - 3) % 20)
            },
    )
}

/// The text made of `lines`, each ended by a line feed.
pub open spec fn join_lines(lines: Seq<Seq<char>>) -> Seq<char>
    decreases lines.len(),
{
    if lines.len() == 0 {
        Seq::<char>::empty()
    } else {
        join_lines(lines.drop_last()) + lines.last() + seq!['\n']
    }
}

/// The text of the mesh of a model.
pub open spec fn obj_text(shape: Shape, voxels: Seq<(i32, i32, i32)>) -> Seq<char> {
    join_lines(obj_lines(shape, voxels))
}

/// Writing line `k` after the first `k` lines gives the first `k + 1` lines.
pub proof fn lemma_join_step(lines: Seq<Seq<char>>, k: int)
    requires
        0 <= k < lines.len(),
    ensures
        join_lines(lines.take(k + 1)) == join_lines(lines.take(k)) + lines[k] + seq!['\n'],
{
    assert(lines.take(k + 1).drop_last() =~= lines.take(k));
}

/// A comment line starts with `#`.
pub open spec fn is_comment_line(line: Seq<char>) -> bool {
    line.len() >= 1 && line[0] == '#'
}

/// A vertex line starts with `v` and a space.
pub open spec fn is_vertex_line(line: Seq<char>) -> bool {
    line.len() >= 2 && line[0] == 'v' && line[1] == ' '
}

/// A face line starts with `f` and a space.
pub open spec fn is_face_line(line: Seq<char>) -> bool {
    line.len() >= 2 && line[0] == 'f' && line[1] == ' '
}

/// The header lines are comments.
proof fn lemma_header_kind(shape: Shape, k: int)
    requires
        0 <= k < 3,
    ensures
        is_comment_line(header_lines(shape)[k]),
        !is_vertex_line(header_lines(shape)[k]),
        !is_face_line(header_lines(shape)[k]),
{
    reveal_strlit("# 3D Voxel Sculptor Export");
    reveal_strlit("# Shape: ");
    reveal_strlit("# Dimensions: ");
}

/// The first eight lines of a voxel are vertex lines, the other twelve face lines.
proof fn lemma_voxel_line_kind(shape: Shape, voxel: (i32, i32, i32), i: int, j: int)
    ensures
        !is_comment_line(voxel_line(shape, voxel, i, j)),
        is_vertex_line(voxel_line(shape, voxel, i, j)) <==> j < 8,
        is_face_line(voxel_line(shape, voxel, i, j)) <==> j >= 8,
{
    reveal_strlit("v ");
    reveal_strlit("f ");
}

/// How many of the first `k` lines are vertex lines.
pub open spec fn vertex_lines_before(k: int) -> int {
    if k <= 3 {
        0
    } else if (k - 3) % 20 < 8 {
        8 * ((k - 3) / 20) + (k - 3) % 20
    } else {
        8 * ((k - 3) / 20) + 8
    }
}

/// How many of the first `k` lines are face lines.
pub open spec fn face_lines_before(k: int) -> int {
    if k <= 3 {
        0
    } else if (k - 3) % 20 < 8 {
        12 * ((k - 3) / 20)
    } else {
        12 * ((k - 3) / 20) + (k - 3) % 20 - 8
    }
}

/// Line `k` of a mesh is a comment in the header, a vertex line in the first
/// eight lines of a voxel and a face line in its other twelve.
pub proof fn lemma_line_kind(shape: Shape, voxels: Seq<(i32, i32, i32)>, k: int)
    requires
        0 <= k < obj_lines(shape, voxels).len(),
    ensures
        is_comment_line(obj_lines(shape, voxels)[k]) <==> k < 3,
        is_vertex_line(obj_lines(shape, voxels)[k]) <==> k >= 3 && (k - 3) % 20 < 8,
        is_face_line(obj_lines(shape, voxels)[k]) <==> k >= 3 && (k - 3) % 20 >= 8,
{
    if k < 3 {
        lemma_header_kind(shape, k);
    } else {
        let i = (k - 3) / 20;
        let j = (k - 3) % 20;
        lemma_voxel_line_kind(shape, voxels[i], i, j);
    }
}

/// Line `k` adds one to the count of its kind and nothing to the other.
proof fn lemma_count_step(k: int)
    requires
        0 <= k,
    ensures
        vertex_lines_before(k + 1) == vertex_lines_before(k) + (if k >= 3 && (k - 3) % 20 < 8 {
            1int
        } else {
            0int
        }),
        face_lines_before(k + 1) == face_lines_before(k) + (if k >= 3 && (k - 3) % 20 >= 8 {
            1int
        } else {
            0int
        }),
{
    if k >= 3 {
        let n = k - 3;
        assert(n == 20 * (n / 20) + n % 20 && 0 <= n % 20 < 20);
        if n % 20 == 19 {
            assert((n + 1) / 20 == n / 20 + 1 && (n + 1) % 20 == 0);
        } else {
            assert((n + 1) / 20 == n / 20 && (n + 1) % 20 == n % 20 + 1);
        }
    }
}

/// The first `k` lines of a mesh hold the comment lines of the header and,
/// voxel by voxel, vertex lines and face lines in the numbers given above.
pub proof fn lemma_lines_before(shape: Shape, voxels: Seq<(i32, i32, i32)>, k: int)
    requires
        0 <= k <= obj_lines(shape, voxels).len(),
    ensures
        obj_lines(shape, voxels).take(k).filter(|line: Seq<char>| is_comment_line(line)).len() == (
        if k <= 3 {
            k
        } else {
            3
        }),
        obj_lines(shape, voxels).take(k).filter(|line: Seq<char>| is_vertex_line(line)).len()
            == vertex_lines_before(k),
        obj_lines(shape, voxels).take(k).filter(|line: Seq<char>| is_face_line(line)).len()
            == face_lines_before(k),
    decreases k,
{
    let lines = obj_lines(shape, voxels);
    let comments = |line: Seq<char>| is_comment_line(line);
    let vertices = |line: Seq<char>| is_vertex_line(line);
    let faces = |line: Seq<char>| is_face_line(line);
    if k == 0 {
        reveal(Seq::filter);
        assert(lines.take(0).filter(comments) =~= Seq::<Seq<char>>::empty());
        assert(lines.take(0).filter(vertices) =~= Seq::<Seq<char>>::empty());
        assert(lines.take(0).filter(faces) =~= Seq::<Seq<char>>::empty());
    } else {
        lemma_lines_before(shape, voxels, k - 1);
        let before = lines.take(k - 1);
        let line = lines[k - 1];
        assert(lines.take(k) =~= before.push(line));
        before.lemma_filter_push(line, comments);
        before.lemma_filter_push(line, vertices);
        before.lemma_filter_push(line, faces);
        lemma_line_kind(shape, voxels, k - 1);
        lemma_count_step(k - 1);
    }
}

/// A mesh of `n` voxels has 3 comment lines, `8 * n` vertex lines and
/// `12 * n` face lines, and no other line.
pub proof fn lemma_line_counts(shape: Shape, voxels: Seq<(i32, i32, i32)>)
    ensures
        obj_lines(shape, voxels).len() == 3 + 8 * voxels.len() + 12 * voxels.len(),
        obj_lines(shape, voxels).filter(|line: Seq<char>| is_comment_line(line)).len() == 3,
        obj_lines(shape, voxels).filter(|line: Seq<char>| is_vertex_line(line)).len() == 8
            * voxels.len(),
        obj_lines(shape, voxels).filter(|line: Seq<char>| is_face_line(line)).len() == 12
            * voxels.len(),
{
    let lines = obj_lines(shape, voxels);
    lemma_lines_before(shape, voxels, lines.len() as int);
    assert(lines.take(lines.len() as int) =~= lines);
}

/// Line `j` of the voxel at position `i` comes after the header and the
/// lines of the voxels before it.
proof fn lemma_line_at(shape: Shape, voxels: Seq<(i32, i32, i32)>, i: int, j: int)
    requires
        0 <= i < voxels.len(),
        0 <= j < 20,
    ensures
        3 + 20 * i + j < obj_lines(shape, voxels).len(),
        obj_lines(shape, voxels)[3 + 20 * i + j] == voxel_line(shape, voxels[i], i, j),
{
    let k = 3 + 20 * i + j;
    assert((k - 3) / 20 == i && (k - 3) % 20 == j);
}

/// The lines of a voxel stand together: after the header and the lines of
/// the voxels before it come its eight vertex lines, then its twelve face lines.
pub proof fn lemma_line_layout(shape: Shape, voxels: Seq<(i32, i32, i32)>, i: int, j: int)
    requires
        0 <= i < voxels.len(),
        0 <= j < 20,
    ensures
        obj_lines(shape, voxels)[3 + 20 * i + j] == voxel_line(shape, voxels[i], i, j),
        j < 8 ==> obj_lines(shape, voxels)[3 + 20 * i + j] == vertex_line(
            vertex(shape, voxels[i], j),
        ) && is_vertex_line(obj_lines(shape, voxels)[3 + 20 * i + j]),
        j >= 8 ==> obj_lines(shape, voxels)[3 + 20 * i + j] == face_line(face(i, j - 8))
            && is_face_line(obj_lines(shape, voxels)[3 + 20 * i + j]),
{
    lemma_line_at(shape, voxels, i, j);
    lemma_voxel_line_kind(shape, voxels[i], i, j);
}

/// Vertex `j` of the voxel at position `i` is the `vertex_number(i, j)`-th
/// vertex line of the mesh.
pub proof fn lemma_vertex_numbering(shape: Shape, voxels: Seq<(i32, i32, i32)>, i: int, j: int)
    requires
        0 <= i < voxels.len(),
        0 <= j < 8,
    ensures
        obj_lines(shape, voxels).take(3 + 20 * i + j).filter(
            |line: Seq<char>| is_vertex_line(line),
        ).len() + 1 == vertex_number(i, j),
{
    lemma_lines_before(shape, voxels, 3 + 20 * i + j);
}

/// The faces of a voxel refer to the eight vertices of that voxel and to no other.
pub proof fn lemma_faces_are_local(i: int, f: int)
    requires
        0 <= f < 12,
    ensures
        vertex_number(i, 0) <= face(i, f).0 <= vertex_number(i, 7),
        vertex_number(i, 0) <= face(i, f).1 <= vertex_number(i, 7),
        vertex_number(i, 0) <= face(i, f).2 <= vertex_number(i, 7),
        vertex_number(i, 0) == 8 * i + 1,
        vertex_number(i, 7) == 8 * i + 8,
{
}

/// The number of line feeds in `text`.
pub open spec fn line_feeds(text: Seq<char>) -> nat {
    text.filter(|c: char| c == '\n').len()
}

/// Text put together from two parts without a line feed has none.
proof fn lemma_one_line_concat(a: Seq<char>, b: Seq<char>)
    requires
        !a.contains('\n'),
        !b.contains('\n'),
    ensures
        !(a + b).contains('\n'),
{
    if (a + b).contains('\n') {
        let i = choose|i: int| 0 <= i < (a + b).len() && (a + b)[i] == '\n';
        if i < a.len() {
            assert(a[i] == '\n');
        } else {
            assert(b[i - a.len()] == '\n');
        }
    }
}

/// No line of a mesh holds a line feed.
pub proof fn lemma_lines_are_single(shape: Shape, voxels: Seq<(i32, i32, i32)>, k: int)
    requires
        0 <= k < obj_lines(shape, voxels).len(),
    ensures
        !obj_lines(shape, voxels)[k].contains('\n'),
{
    reveal_strlit(" ");
    if k < 3 {
        reveal_strlit("# 3D Voxel Sculptor Export");
        reveal_strlit("# Shape: ");
        reveal_strlit("# Dimensions: ");
        reveal_strlit(" x ");
        let (w, h, d) = (
            decimal(shape.width as nat),
            decimal(shape.height as nat),
            decimal(shape.depth as nat),
        );
        shape.shape_type.lemma_names_are_one_line();
        lemma_decimal_is_one_line(shape.width as nat);
        lemma_decimal_is_one_line(shape.height as nat);
        lemma_decimal_is_one_line(shape.depth as nat);
        lemma_one_line_concat("# Shape: "@, shape.shape_type.name_view());
        lemma_one_line_concat("# Dimensions: "@, w);
        lemma_one_line_concat("# Dimensions: "@ + w, " x "@);
        lemma_one_line_concat("# Dimensions: "@ + w + " x "@, h);
        lemma_one_line_concat("# Dimensions: "@ + w + " x "@ + h, " x "@);
        lemma_one_line_concat("# Dimensions: "@ + w + " x "@ + h + " x "@, d);
    } else {
        let i = (k - 3) / 20;
        let j = (k - 3) % 20;
        if j < 8 {
            reveal_strlit("v ");
            let v = vertex(shape, voxels[i], j);
            let (x, y, z) = (half_decimal(v.0), half_decimal(v.1), half_decimal(v.2));
            lemma_half_decimal_is_one_line(v.0);
            lemma_half_decimal_is_one_line(v.1);
            lemma_half_decimal_is_one_line(v.2);
            lemma_one_line_concat("v "@, x);
            lemma_one_line_concat("v "@ + x, " "@);
            lemma_one_line_concat("v "@ + x + " "@, y);
            lemma_one_line_concat("v "@ + x + " "@ + y, " "@);
            lemma_one_line_concat("v "@ + x + " "@ + y + " "@, z);
        } else {
            reveal_strlit("f ");
            let t = face(i, j - 8);
            let (a, b, c) = (decimal(t.0 as nat), decimal(t.1 as nat), decimal(t.2 as nat));
            lemma_decimal_is_one_line(t.0 as nat);
            lemma_decimal_is_one_line(t.1 as nat);
            lemma_decimal_is_one_line(t.2 as nat);
            lemma_one_line_concat("f "@, a);
            lemma_one_line_concat("f "@ + a, " "@);
            lemma_one_line_concat("f "@ + a + " "@, b);
            lemma_one_line_concat("f "@ + a + " "@ + b, " "@);
            lemma_one_line_concat("f "@ + a + " "@ + b + " "@, c);
        }
    }
}

/// Lines without a line feed, joined, make a text with one line feed per line.
pub proof fn lemma_join_line_feeds(lines: Seq<Seq<char>>)
    requires
        forall|k: int| 0 <= k < lines.len() ==> !(#[trigger] lines[k]).contains('\n'),
    ensures
        line_feeds(join_lines(lines)) == lines.len(),
    decreases lines.len(),
{
    let feed = |c: char| c == '\n';
    reveal(Seq::filter);
    if lines.len() == 0 {
        assert(join_lines(lines).filter(feed) =~= Seq::<char>::empty());
    } else {
        let head = join_lines(lines.drop_last());
        let last = lines.last();
        lemma_join_line_feeds(lines.drop_last());
        assert(last.all(|c: char| !feed(c))) by {
            assert forall|i: int| 0 <= i < last.len() implies last[i] != '\n' by {
                if last[i] == '\n' {
                    assert(last.contains('\n'));
                }
            }
        }
        last.lemma_all_neg_filter_empty(feed);
        Seq::filter_distributes_over_add(head + last, seq!['\n'], feed);
        Seq::filter_distributes_over_add(head, last, feed);
        assert(seq!['\n'].filter(feed) =~= seq!['\n']) by {
            assert(seq!['\n'].drop_last() =~= Seq::<char>::empty());
            assert(Seq::<char>::empty().filter(feed) =~= Seq::<char>::empty());
            assert(seq!['\n'].last() == '\n');
        }
    }
}

/// The text of a mesh of `n` voxels has `3 + 8 * n + 12 * n` lines.
pub proof fn lemma_text_line_feeds(shape: Shape, voxels: Seq<(i32, i32, i32)>)
    ensures
        line_feeds(obj_text(shape, voxels)) == 3 + 8 * voxels.len() + 12 * voxels.len(),
{
    let lines = obj_lines(shape, voxels);
    assert forall|k: int| 0 <= k < lines.len() implies !(#[trigger] lines[k]).contains('\n') by {
        lemma_lines_are_single(shape, voxels, k);
    }
    lemma_join_line_feeds(lines);
}

/// Corner `j` of the unit cube.
fn corner_of(j: usize) -> (c: (i64, i64, i64))
    requires
        j < 8,
    ensures
        (c.0 as int, c.1 as int, c.2 as int) == corner(j as int),
{
    match j {
        0 => (0, 0, 0),
        1 => (1, 0, 0),
        2 => (1, 0, 1),
        3 => (0, 0, 1),
        4 => (0, 1, 0),
        5 => (1, 1, 0),
        6 => (1, 1, 1),
        _ => (0, 1, 1),
    }
}

/// The corners of triangle `f`.
fn triangle_of(f: usize) -> (t: (u128, u128, u128))
    requires
        f < 12,
    ensures
        (t.0 as int, t.1 as int, t.2 as int) == triangle(f as int),
{
    match f {
        0 => (0, 1, 2),
        1 => (0, 2, 3),
        2 => (4, 7, 6),
        3 => (4, 6, 5),
        4 => (0, 4, 5),
        5 => (0, 5, 1),
        6 => (3, 2, 6),
        7 => (3, 6, 7),
        8 => (0, 3, 7),
        9 => (0, 7, 4),
        10 => (1, 5, 6),
        _ => (1, 6, 2),
    }
}

/// Vertex `j` of the cube of `voxel`, in half units.
fn vertex_of(shape: &Shape, voxel: (i32, i32, i32), j: usize) -> (v: (i64, i64, i64))
    requires
        j < 8,
    ensures
        (v.0 as int, v.1 as int, v.2 as int) == vertex(*shape, voxel, j as int),
{
    let c = corner_of(j);
    (
        2 * (voxel.0 as i64 + c.0) - shape.width as i64,
        2 * (voxel.1 as i64 + c.1) - shape.height as i64,
        2 * (voxel.2 as i64 + c.2) - shape.depth as i64,
    )
}

/// Triangle `f` of the voxel at position `i`, by vertex numbers.
fn face_of(i: usize, f: usize) -> (t: (u128, u128, u128))
    requires
        f < 12,
    ensures
        (t.0 as int, t.1 as int, t.2 as int) == face(i as int, f as int),
{
    let first: u128 = 8 * (i as u128) + 1;
    let c = triangle_of(f);
    (first + c.0, first + c.1, first + c.2)
}

/// Ends the line that was written.
fn push_line_end(out: &mut String)
    ensures
        final(out)@ == old(out)@ + seq!['\n'],
{
    proof {
        reveal_strlit("\n");
    }
    out.append("\n");
    assert(out@ =~= old(out)@ + seq!['\n']);
}

/// Appends the banner line.
fn push_banner_line(out: &mut String)
    ensures
        final(out)@ == old(out)@ + banner_line() + seq!['\n'],
{
    out.append("# 3D Voxel Sculptor Export");
    push_line_end(out);
}

/// Appends the line that names the kind of the shape.
fn push_kind_line(out: &mut String, shape: &Shape)
    ensures
        final(out)@ == old(out)@ + kind_line(*shape) + seq!['\n'],
{
    out.append("# Shape: ");
    out.append(shape.shape_type.name());
    assert(out@ =~= old(out)@ + kind_line(*shape));
    push_line_end(out);
}

/// Appends the line that gives the dimensions of the shape.
fn push_dimensions_line(out: &mut String, shape: &Shape)
    ensures
        final(out)@ == old(out)@ + dimensions_line(*shape) + seq!['\n'],
{
    out.append("# Dimensions: ");
    push_decimal(out, shape.width as u128);
    out.append(" x ");
    push_decimal(out, shape.height as u128);
    out.append(" x ");
    push_decimal(out, shape.depth as u128);
    assert(out@ =~= old(out)@ + dimensions_line(*shape));
    push_line_end(out);
}

/// Appends the line of a vertex given in half units.
fn push_vertex_line(out: &mut String, v: (i64, i64, i64))
    ensures
        final(out)@ == old(out)@ + vertex_line((v.0 as int, v.1 as int, v.2 as int)) + seq!['\n'],
{
    out.append("v ");
    push_half_decimal(out, v.0);
    out.append(" ");
    push_half_decimal(out, v.1);
    out.append(" ");
    push_half_decimal(out, v.2);
    assert(out@ =~= old(out)@ + vertex_line((v.0 as int, v.1 as int, v.2 as int)));
    push_line_end(out);
}

/// Appends the line of a triangle given by vertex numbers.
fn push_face_line(out: &mut String, t: (u128, u128, u128))
    ensures
        final(out)@ == old(out)@ + face_line((t.0 as int, t.1 as int, t.2 as int)) + seq!['\n'],
{
    out.append("f ");
    push_decimal(out, t.0);
    out.append(" ");
    push_decimal(out, t.1);
    out.append(" ");
    push_decimal(out, t.2);
    assert(out@ =~= old(out)@ + face_line((t.0 as int, t.1 as int, t.2 as int)));
    push_line_end(out);
}

/// Renders the model as the text of an OBJ mesh: the header, then for each
/// voxel in order the eight vertex lines and the twelve face lines of its cube.
pub fn export_to_obj(voxel_data: &VoxelData) -> (text: String)
    ensures
        text@ == obj_text(voxel_data.shape, voxel_data.voxels@),
{
    let ghost lines = obj_lines(voxel_data.shape, voxel_data.voxels@);
    let mut out = String::new();
    proof {
        assert(join_lines(lines.take(0)) =~= Seq::<char>::empty());
        lemma_join_step(lines, 0);
        lemma_join_step(lines, 1);
        lemma_join_step(lines, 2);
    }
    push_banner_line(&mut out);
    assert(out@ =~= join_lines(lines.take(1)));
    push_kind_line(&mut out, &voxel_data.shape);
    push_dimensions_line(&mut out, &voxel_data.shape);
    let count: usize = voxel_data.voxels.len();
    let mut i: usize = 0;
    while i < count
        invariant
            i <= count,
            count == voxel_data.voxels@.len(),
            lines == obj_lines(voxel_data.shape, voxel_data.voxels@),
            out@ == join_lines(lines.take(3 + 20 * i)),
        decreases count - i,
    {
        let voxel = voxel_data.voxels[i];
        let mut j: usize = 0;
        while j < 8
            invariant
                i < count,
                j <= 8,
                voxel == voxel_data.voxels@[i as int],
                count == voxel_data.voxels@.len(),
                lines == obj_lines(voxel_data.shape, voxel_data.voxels@),
                out@ == join_lines(lines.take(3 + 20 * i + j)),
            decreases 8 - j,
        {
            proof {
                lemma_line_at(voxel_data.shape, voxel_data.voxels@, i as int, j as int);
                lemma_join_step(lines, 3 + 20 * i + j);
            }
            push_vertex_line(&mut out, vertex_of(&voxel_data.shape, voxel, j));
            j += 1;
        }
        let mut f: usize = 0;
        while f < 12
            invariant
                i < count,
                f <= 12,
                count == voxel_data.voxels@.len(),
                lines == obj_lines(voxel_data.shape, voxel_data.voxels@),
                out@ == join_lines(lines.take(3 + 20 * i + 8 + f)),
            decreases 12 - f,
        {
            proof {
                lemma_line_at(voxel_data.shape, voxel_data.voxels@, i as int, 8 + f as int);
                lemma_join_step(lines, 3 + 20 * i + 8 + f);
            }
            push_face_line(&mut out, face_of(i, f));
            f += 1;
        }
        i += 1;
    }
    proof {
        assert(lines.take(3 + 20 * count) =~= lines);
    }
    out
}

} // verus!
