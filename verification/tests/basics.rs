//! Layer masks, index buffers, image formats, the id map, the phase sort and
//! the event-loop decisions.
use flat::buffer::{vertex_base_layout, IndexFormatModel, Indices};
use flat::mesh::{BatchMesh, Mesh};
use flat::dispatch::DrawFunctionId;
use flat::idmap::IdMap;
use flat::layers::{layers_intersect, RenderLayers, DEFAULT_LAYER};
use flat::phase::{float_sort_key, sort_phase, PrimitiveQuad};
use flat::pipeline::{PrimitiveTopologyModel, RenderPipelineId};
use flat::texture::{ImageArray, ImageDim, PixelFormat, RawImage};
use flat::window::{
    handle_window_event, ExitOnWindowClose, Window, WindowDescriptor, WindowEventModel, WindowId,
    Windows, WinitSettings,
};

#[test]
fn layer_masks() {
    let mut layers = RenderLayers::empty();
    assert!(!layers.contains(3));
    layers.with(3);
    assert!(layers.contains(3));
    assert!(!layers.contains(4));
    layers.with(4);
    layers.without(3);
    assert!(!layers.contains(3));
    assert!(layers.contains(4));

    let defaulted = RenderLayers::default();
    assert!(defaulted.contains(DEFAULT_LAYER));

    let mut a = RenderLayers::empty();
    a.with_layers(&[1, 2, 5]);
    let mut b = RenderLayers::empty();
    b.with(2);
    assert!(a.intersects(&b));
    assert!(layers_intersect(Some(&a), Some(&b)));
    assert!(layers_intersect(None, None));
    assert!(layers_intersect(None, Some(&defaulted)));
    assert!(!layers_intersect(None, Some(&RenderLayers::empty())));
}

#[test]
fn without_layers_removes_each_listed_layer() {
    let mut layers = RenderLayers::empty();
    layers.with_layers(&[1, 2, 6]);
    layers.without_layers(&[1, 2]);
    assert!(!layers.contains(1));
    assert!(!layers.contains(2));
    assert!(layers.contains(6));

    // removing from a set that holds only layer 1 empties it of layer 1
    let mut one = RenderLayers::empty();
    one.with(1);
    one.without_layers(&[1, 2]);
    assert!(!one.contains(1));
}

#[test]
fn indices_shift_and_extend() {
    let mut inds = Indices::U16(vec![0, 1, 2]);
    assert_eq!(inds.len(), 3);
    inds.shift(4);
    match &inds {
        Indices::U16(v) => assert_eq!(v, &vec![4, 5, 6]),
        _ => panic!("width changed"),
    }
    inds.extend(Indices::U32(vec![70000, 8]));
    match &inds {
        // 70000 is truncated into the 16-bit width
        Indices::U16(v) => assert_eq!(v, &vec![4, 5, 6, (70000u32 & 0xffff) as u16, 8]),
        _ => panic!("width changed"),
    }
    assert!(matches!(inds.format(), IndexFormatModel::Uint16));

    let mut wide = Indices::U32(vec![1]);
    wide.extend(Indices::U16(vec![2]));
    match &wide {
        Indices::U32(v) => assert_eq!(v, &vec![1, 2]),
        _ => panic!("width changed"),
    }
}

fn triangle() -> Mesh {
    Mesh::new_with(
        PrimitiveTopologyModel::TriangleList,
        vertex_base_layout(),
        vec![0u8; 36],
        Some(Indices::U16(vec![0, 1, 2])),
    )
}

#[test]
fn batch_mesh_shifts_incoming_indices_past_the_batch() {
    let mut batch = BatchMesh::new(PrimitiveTopologyModel::TriangleList, vertex_base_layout(), true);
    batch.add(triangle());
    // the second mesh's indices are shifted past the three vertices already
    // in the batch, so they address its own appended vertex copies
    batch.add(triangle());
    assert_eq!(batch.inner_mesh.vertex_data.len(), 72);
    match batch.inner_mesh.get_indices() {
        Some(Indices::U16(v)) => assert_eq!(v, &vec![0, 1, 2, 3, 4, 5]),
        _ => panic!("indices lost"),
    }
}

#[test]
fn image_dimension_formulas() {
    assert_eq!(PixelFormat::G8.bytes(), 1);
    assert_eq!(PixelFormat::RGBA8.bytes(), 4);
    assert_eq!(PixelFormat::RGBA8.depth(), 4);
    let dim = ImageDim { width: 800, height: 600, pixel: PixelFormat::RGBA8 };
    assert_eq!(dim.bytes_per_row(), 3200);
    assert_eq!(dim.total_bytes(), 1_920_000);
    let raw = RawImage::new(&[0u8; 16], (2, 2), PixelFormat::RGBA8);
    assert_eq!(raw.dim, (2, 2, 4));
    assert_eq!(raw.bytes_per_row(), 8);
}

#[test]
fn image_array_add_and_overwrite() {
    let dim = ImageDim { width: 1, height: 1, pixel: PixelFormat::RGBA8 };
    let mut arr = ImageArray::new(dim);
    arr.add(&vec![1, 2, 3, 4], dim);
    arr.add(&vec![5, 6, 7, 8], dim);
    assert_eq!(arr.count, 2);
    assert_eq!(arr.data(), &vec![1, 2, 3, 4, 5, 6, 7, 8]);
    arr.overwrite(1, &vec![9, 9, 9, 9], dim);
    assert_eq!(arr.data(), &vec![1, 2, 3, 4, 9, 9, 9, 9]);
    // a position beyond the buffer changes nothing
    arr.overwrite(5, &vec![1, 1, 1, 1], dim);
    assert_eq!(arr.data(), &vec![1, 2, 3, 4, 9, 9, 9, 9]);
}

#[test]
fn id_map_keeps_insertion_order() {
    let mut map: IdMap<u32> = IdMap::new();
    map.insert(7, 70);
    map.insert(3, 30);
    map.insert(7, 71);
    assert_eq!(map.len(), 2);
    assert_eq!(map.get(7), Some(&71));
    assert_eq!(map.get(3), Some(&30));
    assert_eq!(map.key_at(0), 7);
    assert_eq!(map.key_at(1), 3);
    assert_eq!(map.remove(7), Some(71));
    assert_eq!(map.get(7), None);
    assert_eq!(map.len(), 1);
}

#[test]
fn float_sort_key_orders_float_bits() {
    let keys: Vec<u32> = [-2.0f32, -0.5, 0.0, 0.5, 2.0]
        .iter()
        .map(|f| float_sort_key(f.to_bits()))
        .collect();
    for pair in keys.windows(2) {
        assert!(pair[0] < pair[1]);
    }
}

fn quad(sort_key: u32, entity: u64) -> PrimitiveQuad {
    PrimitiveQuad {
        sort_key,
        pipeline: RenderPipelineId(0),
        draw_function: DrawFunctionId(0),
        entity,
        item_range_start: 0,
        item_range_end: 0,
    }
}

#[test]
fn phase_sort_is_stable() {
    let mut items = vec![quad(5, 0), quad(1, 1), quad(5, 2), quad(0, 3), quad(1, 4)];
    sort_phase(&mut items);
    let order: Vec<(u32, u64)> = items.iter().map(|i| (i.sort_key, i.entity)).collect();
    // sorted by key; equal keys keep their insertion order
    assert_eq!(order, vec![(0, 3), (1, 1), (1, 4), (5, 0), (5, 2)]);
}

#[test]
fn close_policy_any_exits() {
    let mut windows = Windows::new();
    windows.add(Window::new(WindowId::primary(), &WindowDescriptor::default(), 800, 600));
    let settings = WinitSettings { exit_on_close: ExitOnWindowClose::Any, run_return: true };
    let step = handle_window_event(
        &settings,
        &mut windows,
        WindowId::primary(),
        WindowEventModel::CloseRequested,
    );
    assert!(step.exit);
    assert!(step.window_removed.is_none());
}

#[test]
fn close_policy_all_exits_when_empty() {
    let mut windows = Windows::new();
    windows.add(Window::new(WindowId::primary(), &WindowDescriptor::default(), 800, 600));
    let second = windows.reserve_id();
    windows.add(Window::new(second, &WindowDescriptor::default(), 100, 100));
    let settings = WinitSettings { exit_on_close: ExitOnWindowClose::All, run_return: true };
    let step = handle_window_event(&settings, &mut windows, second, WindowEventModel::CloseRequested);
    assert!(!step.exit);
    assert_eq!(step.window_removed, Some(second));
    let step = handle_window_event(
        &settings,
        &mut windows,
        WindowId::primary(),
        WindowEventModel::CloseRequested,
    );
    assert!(step.exit);
}

#[test]
fn resize_event_updates_window_and_forwards() {
    let mut windows = Windows::new();
    windows.add(Window::new(WindowId::primary(), &WindowDescriptor::default(), 800, 600));
    let settings = WinitSettings { exit_on_close: ExitOnWindowClose::Any, run_return: true };
    let step = handle_window_event(
        &settings,
        &mut windows,
        WindowId::primary(),
        WindowEventModel::Resized { width: 400, height: 300 },
    );
    let resized = step.resized.expect("resize event");
    assert_eq!((resized.width, resized.height), (400, 300));
    let w = windows.map.get(0).expect("window");
    assert_eq!((w.physical_width, w.physical_height), (400, 300));
}
