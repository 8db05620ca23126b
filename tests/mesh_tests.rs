use lyon::math::point;
use lyon::path::Path;
use lyon::tessellation::geometry_builder::simple_builder;
use lyon::tessellation::{StrokeOptions, StrokeTessellator, VertexBuffers};

use vector_canvas::canvas::{Canvas, Line};
use vector_canvas::mesh::{assemble, check_indices, pad_indices, MeshError, Tessellate};

const RED: [f32; 4] = [0.8, 0.2, 0.5, 1.0];

/// Strokes the closed outline through `points` with a width of 0.01 and lifts
/// the positions to a depth of 0.1.
fn stroke(points: &[(f32, f32)]) -> (Vec<[f32; 3]>, Vec<u16>) {
    let mut builder = Path::builder();
    builder.begin(point(points[0].0, points[0].1));
    for p in &points[1..] {
        builder.line_to(point(p.0, p.1));
    }
    builder.end(true);
    let path = builder.build();
    let mut buffers: VertexBuffers<lyon::math::Point, u16> = VertexBuffers::new();
    {
        let mut out = simple_builder(&mut buffers);
        let mut tessellator = StrokeTessellator::new();
        tessellator
            .tessellate_path(&path, &StrokeOptions::default().with_line_width(0.01), &mut out)
            .unwrap();
    }
    let positions = buffers.vertices.iter().map(|v| [v.x, v.y, 0.1]).collect();
    (positions, buffers.indices)
}

fn draw(points: &[(f32, f32)], color: [f32; 4]) -> Tessellate<[f32; 4], [f32; 3]> {
    let mut line = Line::start(points[0], color);
    for p in &points[1..] {
        line.to(*p);
    }
    let (positions, indices) = stroke(line.points());
    let mut canvas = Canvas::new();
    line.end(positions, indices, &mut canvas).unwrap();
    assert_eq!(canvas.meshes().len(), 1);
    canvas.tessellates.pop().unwrap()
}

#[test]
fn right_angle_path_gives_padded_mesh_in_its_color() {
    let m = draw(&[(0.0, 0.0), (1.0, 0.0), (1.0, 1.0)], RED);
    assert!(!m.vertices.is_empty());
    assert!(!m.indices.is_empty());
    assert_eq!(m.indices.len() % 4, 0);
    for v in &m.vertices {
        assert_eq!(v.color, RED);
        assert_eq!(v.position[2], 0.1);
    }
}

#[test]
fn index_counts_are_multiples_of_four() {
    let paths: Vec<Vec<(f32, f32)>> = vec![
        vec![(0.0, 0.0)],
        vec![(0.0, 0.0), (0.5, 0.5)],
        vec![(0.0, 0.0), (0.0, 0.0), (0.0, 0.0)],
        vec![(-1.0, -1.0), (0.2, -1.0), (0.2, 0.5), (0.6, 0.5), (0.6, 0.7)],
    ];
    for p in &paths {
        let m = draw(p, RED);
        assert_eq!(m.indices.len() % 4, 0);
    }
}

#[test]
fn all_indices_name_a_vertex() {
    let paths: Vec<Vec<(f32, f32)>> = vec![
        vec![(0.0, 0.0), (1.0, 0.0), (1.0, 1.0)],
        vec![(0.0, 0.0), (0.3, 0.1)],
        vec![(-1.0, -1.0), (0.2, -1.0), (0.2, 0.5), (0.6, 0.5), (0.6, 0.7)],
    ];
    for p in &paths {
        let m = draw(p, RED);
        for i in &m.indices {
            assert!((*i as usize) < m.vertices.len());
        }
    }
}

#[test]
fn same_path_gives_same_mesh() {
    let path = [(0.0, 0.0), (1.0, 0.0), (1.0, 1.0), (0.25, 0.75)];
    let a = draw(&path, RED);
    let b = draw(&path, RED);
    assert_eq!(a.indices, b.indices);
    assert_eq!(a.vertices.len(), b.vertices.len());
    for (x, y) in a.vertices.iter().zip(b.vertices.iter()) {
        assert_eq!(x.position, y.position);
        assert_eq!(x.color, y.color);
    }
}

#[test]
fn padding_repeats_the_last_index() {
    let mut v: Vec<u16> = vec![0, 1, 2];
    pad_indices(&mut v);
    assert_eq!(v, vec![0, 1, 2, 2]);
    let mut v: Vec<u16> = vec![0, 1, 2, 2, 3, 0];
    pad_indices(&mut v);
    assert_eq!(v, vec![0, 1, 2, 2, 3, 0, 0, 0]);
    let mut v: Vec<u16> = vec![7];
    pad_indices(&mut v);
    assert_eq!(v, vec![7, 7, 7, 7]);
    let mut v: Vec<u16> = vec![];
    pad_indices(&mut v);
    assert!(v.is_empty());
    let mut v: Vec<u16> = vec![4, 5, 6, 7];
    pad_indices(&mut v);
    assert_eq!(v, vec![4, 5, 6, 7]);
}

#[test]
fn check_indices_against_vertex_count() {
    assert!(check_indices(&vec![0, 1, 2], 3));
    assert!(!check_indices(&vec![0, 1, 3], 3));
    assert!(check_indices(&vec![], 0));
}

#[test]
fn assemble_pads_and_colors() {
    let positions: Vec<[f32; 3]> = vec![[0.0, 0.0, 0.1], [1.0, 0.0, 0.1], [0.0, 1.0, 0.1]];
    let m = assemble(RED, positions.clone(), vec![0, 1, 2]).unwrap();
    assert_eq!(m.indices, vec![0, 1, 2, 2]);
    assert_eq!(m.vertices.len(), 3);
    for (v, p) in m.vertices.iter().zip(positions.iter()) {
        assert_eq!(v.color, RED);
        assert_eq!(v.position, *p);
    }
}

#[test]
fn assemble_of_nothing_is_empty() {
    let m = assemble(RED, Vec::<[f32; 3]>::new(), vec![]).unwrap();
    assert!(m.vertices.is_empty());
    assert!(m.indices.is_empty());
}

#[test]
fn assemble_rejects_a_partial_triangle() {
    let positions: Vec<[f32; 3]> = vec![[0.0, 0.0, 0.1], [1.0, 0.0, 0.1]];
    assert_eq!(
        assemble(RED, positions, vec![0, 1]).err(),
        Some(MeshError::NotTriangleList)
    );
}

#[test]
fn assemble_rejects_an_index_past_the_vertices() {
    let positions: Vec<[f32; 3]> = vec![[0.0, 0.0, 0.1], [1.0, 0.0, 0.1], [0.0, 1.0, 0.1]];
    assert_eq!(
        assemble(RED, positions, vec![0, 1, 3]).err(),
        Some(MeshError::IndexOutOfRange)
    );
}

#[test]
fn end_with_bad_output_leaves_canvas_alone() {
    let line = Line::start((0.0f32, 0.0f32), RED);
    let mut canvas: Canvas<[f32; 4], [f32; 3]> = Canvas::new();
    let r = line.end(vec![[0.0, 0.0, 0.1]], vec![0, 0, 1], &mut canvas);
    assert_eq!(r, Err(MeshError::IndexOutOfRange));
    assert!(canvas.meshes().is_empty());
}

#[test]
fn line_keeps_its_points_and_color() {
    let mut line = Line::start((0.0f32, 0.0f32), RED);
    line.to((1.0, 0.0));
    line.to((1.0, 0.0));
    assert_eq!(line.points(), &vec![(0.0, 0.0), (1.0, 0.0), (1.0, 0.0)]);
    assert_eq!(*line.color(), RED);
}

#[test]
fn canvas_gives_back_pushed_meshes_in_order() {
    let a = assemble(RED, vec![[0.0f32, 0.0, 0.1], [1.0, 0.0, 0.1], [0.0, 1.0, 0.1]], vec![0, 1, 2])
        .unwrap();
    let b = assemble([0.0, 0.0, 1.0, 1.0], vec![[0.5f32, 0.5, 0.1]; 4], vec![0, 1, 2, 1, 3, 2])
        .unwrap();
    let mut canvas = Canvas::new();
    assert!(canvas.meshes().is_empty());
    canvas.push(a);
    canvas.push(b);
    let ms = canvas.meshes();
    assert_eq!(ms.len(), 2);
    assert_eq!(ms[0].indices, vec![0, 1, 2, 2]);
    assert_eq!(ms[0].vertices[1].position, [1.0, 0.0, 0.1]);
    assert_eq!(ms[0].vertices[1].color, RED);
    assert_eq!(ms[1].indices, vec![0, 1, 2, 1, 3, 2, 2, 2]);
    assert_eq!(ms[1].vertices.len(), 4);
    assert_eq!(ms[1].vertices[3].color, [0.0, 0.0, 1.0, 1.0]);
}
