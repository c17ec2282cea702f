use gradient_compute::buffers::buffer_size;
use gradient_compute::plan::plan_run;
use gradient_compute::error::GpuError;
use gradient_compute::pixels::Pixel;
use gradient_compute::pixels::PixelGrid;
use gradient_compute::readback::MapEvent;
use gradient_compute::readback::StagingBuffer;
use std::io::Cursor;

fn ramp(len: usize) -> Vec<u8> {
    let mut bytes = Vec::with_capacity(len);
    for i in 0..len {
        bytes.push((i * 7 % 251) as u8);
    }
    bytes
}

#[test]
fn assemble_reads_row_major_rgba() {
    let bytes: Vec<u8> = (0u8..24).collect();
    let grid = PixelGrid::assemble(3, 2, bytes.clone()).unwrap();
    assert_eq!(grid.width(), 3);
    assert_eq!(grid.height(), 2);
    assert_eq!(grid.pixel(0, 0), Pixel { r: 0, g: 1, b: 2, a: 3 });
    assert_eq!(grid.pixel(1, 0), Pixel { r: 4, g: 5, b: 6, a: 7 });
    assert_eq!(grid.pixel(2, 0), Pixel { r: 8, g: 9, b: 10, a: 11 });
    assert_eq!(grid.pixel(0, 1), Pixel { r: 12, g: 13, b: 14, a: 15 });
    assert_eq!(grid.pixel(2, 1), Pixel { r: 20, g: 21, b: 22, a: 23 });
    assert_eq!(grid.into_bytes(), bytes);
}

#[test]
fn assemble_refuses_any_other_length() {
    for len in [0usize, 1, 23, 25, 28, 48] {
        let made = PixelGrid::assemble(3, 2, vec![0u8; len]);
        assert_eq!(made.unwrap_err(), GpuError::MalformedPixelBuffer);
    }
    assert!(PixelGrid::assemble(3, 2, vec![0u8; 24]).is_ok());
    assert!(PixelGrid::assemble(1, 1, vec![0u8; 4]).is_ok());
    let huge = PixelGrid::assemble(u32::MAX, u32::MAX, vec![0u8; 4]);
    assert_eq!(huge.unwrap_err(), GpuError::MalformedPixelBuffer);
}

#[test]
fn pixels_written_back_give_the_same_bytes() {
    let bytes = ramp(5 * 7 * 4);
    let grid = PixelGrid::assemble(5, 7, bytes.clone()).unwrap();
    let mut again = Vec::new();
    for y in 0..7 {
        for x in 0..5 {
            let p = grid.pixel(x, y);
            again.push(p.r);
            again.push(p.g);
            again.push(p.b);
            again.push(p.a);
        }
    }
    assert_eq!(again, bytes);
}

#[test]
fn codec_round_trip_keeps_pixel_values() {
    let bytes = ramp(16 * 9 * 4);
    let grid = PixelGrid::assemble(16, 9, bytes.clone()).unwrap();
    let (w, h) = (grid.width(), grid.height());
    let img = image::RgbaImage::from_raw(w, h, grid.into_bytes()).unwrap();
    let mut file = Cursor::new(Vec::new());
    img.write_to(&mut file, image::ImageFormat::Png).unwrap();
    let decoded = image::load_from_memory_with_format(file.get_ref(), image::ImageFormat::Png)
        .unwrap();
    assert_eq!(decoded.color(), image::ColorType::Rgba8);
    let back = decoded.into_rgba8();
    assert_eq!(back.dimensions(), (16, 9));
    assert_eq!(back.into_raw(), bytes);
}

#[test]
fn default_image_end_to_end_on_the_host_side() {
    let plan = plan_run(256, 256, 8).unwrap();
    assert_eq!((plan.grid.x, plan.grid.y, plan.grid.z), (32, 32, 1));
    let mut staging = StagingBuffer::new(plan.buffers.staging.size);
    staging.apply(MapEvent::Requested).unwrap();
    staging.apply(MapEvent::Completed).unwrap();
    let read = staging.read_mapped(ramp(262144)).unwrap();
    assert_eq!(read.len() as u64, buffer_size(256, 256).unwrap());
    assert_eq!(read.len(), 262144);
    let grid = PixelGrid::assemble(plan.width, plan.height, read).unwrap();
    staging.apply(MapEvent::Released).unwrap();
    let img = image::RgbaImage::from_raw(grid.width(), grid.height(), grid.into_bytes()).unwrap();
    let mut file = Cursor::new(Vec::new());
    img.write_to(&mut file, image::ImageFormat::Png).unwrap();
    let decoded = image::load_from_memory_with_format(file.get_ref(), image::ImageFormat::Png)
        .unwrap();
    assert_eq!((decoded.width(), decoded.height()), (256, 256));
    assert_eq!(decoded.color().channel_count(), 4);
}

#[test]
fn encoding_twice_gives_identical_files() {
    let bytes = ramp(32 * 32 * 4);
    let mut files = Vec::new();
    for _ in 0..2 {
        let grid = PixelGrid::assemble(32, 32, bytes.clone()).unwrap();
        let img = image::RgbaImage::from_raw(32, 32, grid.into_bytes()).unwrap();
        let mut file = Cursor::new(Vec::new());
        img.write_to(&mut file, image::ImageFormat::Png).unwrap();
        files.push(file.into_inner());
    }
    assert_eq!(files[0], files[1]);
}
