//! The render-asset preparation pipeline: retry convergence, removal, event
//! order, and the image decode path.
use flat::assets::{AssetEvent, RenderAssetStore};
use flat::idmap::IdMap;
use flat::texture::{GpuTexture, Image, ImageArray, ImageDim, ImageLoader, PixelFormat};

fn unprepared_image() -> Image {
    Image { width: 2, height: 2, data: vec![0; 16], prepare: false }
}

fn prepared_image() -> Image {
    Image { width: 2, height: 2, data: vec![0; 16], prepare: true }
}

#[test]
fn retry_converges_once_asset_becomes_preparable() {
    let mut store: RenderAssetStore<Image> = RenderAssetStore::new();
    let mut assets: IdMap<Image> = IdMap::new();
    assets.insert(9, unprepared_image());

    // frame 0: the created asset cannot be prepared yet and is queued
    store.prepare_render_assets(&assets, &vec![AssetEvent::Created { id: 9 }]);
    assert!(store.render_assets.get(9).is_none());

    // frames without change: still pending, still queued
    for _ in 0..3 {
        store.prepare_render_assets(&assets, &vec![]);
        assert!(store.render_assets.get(9).is_none());
    }

    // the asset becomes preparable: the retry drain prepares it next frame
    assets.insert(9, prepared_image());
    store.prepare_render_assets(&assets, &vec![]);
    let gpu = store.render_assets.get(9).expect("prepared");
    assert_eq!((gpu.width, gpu.height, gpu.array_layers), (2, 2, 1));
}

#[test]
fn removed_asset_leaves_the_map_and_stale_retries_are_benign() {
    let mut store: RenderAssetStore<Image> = RenderAssetStore::new();
    let mut assets: IdMap<Image> = IdMap::new();
    assets.insert(1, prepared_image());
    store.prepare_render_assets(&assets, &vec![AssetEvent::Created { id: 1 }]);
    assert!(store.render_assets.get(1).is_some());

    assets.remove(1);
    store.prepare_render_assets(&assets, &vec![AssetEvent::Removed { id: 1 }]);
    assert!(store.render_assets.get(1).is_none());

    // one more frame with nothing queued for it: a no-op
    store.prepare_render_assets(&assets, &vec![]);
    assert!(store.render_assets.get(1).is_none());
}

#[test]
fn events_apply_in_order_last_write_wins() {
    let mut store: RenderAssetStore<Image> = RenderAssetStore::new();
    let mut assets: IdMap<Image> = IdMap::new();
    assets.insert(5, prepared_image());
    // created, then removed in the same frame: the removal wins
    store.prepare_render_assets(
        &assets,
        &vec![AssetEvent::Created { id: 5 }, AssetEvent::Removed { id: 5 }],
    );
    assert!(store.render_assets.get(5).is_none());
    // removed, then created again: the creation wins
    store.prepare_render_assets(
        &assets,
        &vec![AssetEvent::Removed { id: 5 }, AssetEvent::Created { id: 5 }],
    );
    assert!(store.render_assets.get(5).is_some());
}

#[test]
fn image_array_prepares_once_whole() {
    let dim = ImageDim { width: 1, height: 1, pixel: PixelFormat::RGBA8 };
    let mut arr = ImageArray::new(dim);
    let mut store: RenderAssetStore<ImageArray> = RenderAssetStore::new();
    let mut assets: IdMap<ImageArray> = IdMap::new();

    // an empty array cannot upload and is retried
    assets.insert(2, ImageArray::new(dim));
    store.prepare_render_assets(&assets, &vec![AssetEvent::Created { id: 2 }]);
    assert!(store.render_assets.get(2).is_none());

    arr.add(&vec![1, 2, 3, 4], dim);
    arr.add(&vec![5, 6, 7, 8], dim);
    assets.insert(2, arr);
    store.prepare_render_assets(&assets, &vec![]);
    let gpu: &GpuTexture = store.render_assets.get(2).expect("uploaded");
    assert_eq!(gpu.array_layers, 2);
}

#[test]
fn texture_array_creation_errors() {
    let dim = ImageDim { width: 1, height: 1, pixel: PixelFormat::RGBA8 };
    assert_eq!(
        GpuTexture::create_texture_array(&vec![], dim, 0),
        Err(flat::texture::TextureArrayError::Empty),
    );
    assert_eq!(
        GpuTexture::create_texture_array(&vec![0; 7], dim, 2),
        Err(flat::texture::TextureArrayError::SizeMismatch),
    );
    let ok = GpuTexture::create_texture_array(&vec![0; 8], dim, 2).unwrap();
    assert_eq!((ok.width, ok.height, ok.array_layers), (1, 1, 2));
}

#[test]
fn decode_rgba_roundtrip_through_loader() {
    // a real 2x1 PNG, encoded by the image codec itself
    let mut png: Vec<u8> = Vec::new();
    let img = image::RgbaImage::from_raw(2, 1, vec![10, 20, 30, 255, 40, 50, 60, 255]).unwrap();
    image::DynamicImage::ImageRgba8(img)
        .write_to(&mut std::io::Cursor::new(&mut png), image::ImageFormat::Png)
        .unwrap();

    let loaded = ImageLoader.load(&png).expect("decodes");
    assert_eq!((loaded.width, loaded.height), (2, 1));
    assert_eq!(loaded.data, vec![10, 20, 30, 255, 40, 50, 60, 255]);
    assert!(loaded.prepare);

    // bytes that are no image decode to nothing
    assert!(ImageLoader.load(&vec![1, 2, 3]).is_none());
}

#[test]
fn shader_and_text_loaders_decode_utf8() {
    let shader = flat::shader::ShaderLoader.load(&b"fn vs_main() {}".to_vec());
    assert_eq!(shader.raw, "fn vs_main() {}");
    let text = flat::asset::TextLoader.load(&b"hello".to_vec());
    assert_eq!(text.0, "hello");
}
