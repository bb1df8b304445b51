use std::collections::VecDeque;
use std::path::PathBuf;

use unpack_depth_map::codec::{check_frame, decode, encode, ColorKind, FrameInfo, JobError};
use unpack_depth_map::pixels::{pack_depth_bits, unpack};
use unpack_depth_map::queue::{dest_file_name, Job, JobQueue};
use unpack_depth_map::worker::{JobBuffers, Tally};

fn png_bytes(width: u32, height: u32, color: png::ColorType, depth: png::BitDepth, data: &[u8]) -> Vec<u8> {
    let mut out = Vec::new();
    {
        let mut encoder = png::Encoder::new(&mut out, width, height);
        encoder.set_color(color);
        encoder.set_depth(depth);
        let mut writer = encoder.write_header().unwrap();
        writer.write_image_data(data).unwrap();
        writer.finish().unwrap();
    }
    out
}

fn rgba_png(width: u32, height: u32, data: &[u8]) -> Vec<u8> {
    png_bytes(width, height, png::ColorType::Rgba, png::BitDepth::Eight, data)
}

fn intensity(bits: u32, near: f32, far: f32) -> u8 {
    let depth = f32::from_bits(bits);
    let intensity = ((depth - far) / (near - far)).clamp(0.0, 1.0);
    (255.0 * intensity) as u8
}

fn rgba_of(depth: f32) -> [u8; 4] {
    let bits = depth.to_bits();
    [(bits >> 16) as u8, (bits >> 8) as u8, bits as u8, (bits >> 24) as u8]
}

fn png_header_dims(bytes: &[u8]) -> (u32, u32, png::ColorType) {
    let reader = png::Decoder::new(bytes).read_info().unwrap();
    let info = reader.info();
    (info.width, info.height, info.color_type)
}

fn job(name: &str) -> Job {
    Job::new(PathBuf::from(format!("in/{}", name)), name.to_string(), PathBuf::from(format!("out/{}", name)))
}

#[test]
fn reassembles_bits_alpha_first() {
    assert_eq!(pack_depth_bits(0x00, 0x00, 0x00, 0x3F), 0x3F00_0000);
    assert_eq!(pack_depth_bits(0x11, 0x22, 0x33, 0x44), 0x4411_2233);
    assert_eq!(pack_depth_bits(0xFF, 0xFF, 0xFF, 0xFF), 0xFFFF_FFFF);
    assert_eq!(f32::from_bits(pack_depth_bits(0, 0, 0, 0x3F)), 0.5);
}

#[test]
fn half_depth_gives_127() {
    let source = vec![0x00, 0x00, 0x00, 0x3F];
    let mut dest = vec![9, 9, 9];
    unpack(&source, |bits| intensity(bits, 1.0, 0.0), &mut dest);
    assert_eq!(dest, vec![127]);
}

#[test]
fn one_byte_per_whole_pixel() {
    let mut dest = Vec::new();
    let source: Vec<u8> = (0..9).collect();
    unpack(&source, |bits| (bits >> 24) as u8, &mut dest);
    assert_eq!(dest, vec![3, 7]);
    unpack(&Vec::new(), |bits| (bits >> 24) as u8, &mut dest);
    assert!(dest.is_empty());
    let source = vec![1u8; 4 * 100];
    unpack(&source, |bits| bits as u8, &mut dest);
    assert_eq!(dest.len(), 100);
}

#[test]
fn transform_is_deterministic() {
    let mut source = Vec::new();
    for d in [0.1f32, 0.5, 2.0, -3.0, 0.75] {
        source.extend_from_slice(&rgba_of(d));
    }
    let mut first = Vec::new();
    let mut second = vec![1, 2, 3, 4, 5, 6, 7];
    unpack(&source, |bits| intensity(bits, 1.0, 0.0), &mut first);
    unpack(&source, |bits| intensity(bits, 1.0, 0.0), &mut second);
    assert_eq!(first, second);
}

#[test]
fn clip_planes_clamp() {
    let (near, far) = (10.0f32, 2.0f32);
    let mut source = Vec::new();
    for d in [near, far, 100.0, -5.0, 6.0] {
        source.extend_from_slice(&rgba_of(d));
    }
    let mut dest = Vec::new();
    unpack(&source, |bits| intensity(bits, near, far), &mut dest);
    assert_eq!(dest, vec![255, 0, 255, 0, 127]);
}

#[test]
fn dest_name_replaces_suffix() {
    assert_eq!(dest_file_name("frame_001.exr", ".exr", "_depth.png"), Some("frame_001_depth.png".to_string()));
    assert_eq!(dest_file_name("frame_001.png", ".exr", "_depth.png"), None);
    assert_eq!(dest_file_name(".exr", ".exr", ".png"), Some(".png".to_string()));
    assert_eq!(dest_file_name("a", "", "_b"), Some("a_b".to_string()));
}

#[test]
fn queue_pops_front_until_empty() {
    let mut jobs = VecDeque::new();
    for name in ["a", "b", "c"] {
        jobs.push_back(job(name));
    }
    let mut queue = JobQueue::new(jobs);
    assert_eq!(queue.len(), 3);
    let first = queue.try_pop().unwrap();
    assert_eq!(first.source_file_name(), "a");
    assert_eq!(first.source_path(), &PathBuf::from("in/a"));
    assert_eq!(first.dest_path(), &PathBuf::from("out/a"));
    assert_eq!(queue.len(), 2);
    assert_eq!(queue.try_pop().unwrap().source_file_name(), "b");
    assert_eq!(queue.try_pop().unwrap().source_file_name(), "c");
    assert!(queue.try_pop().is_none());
    assert!(queue.try_pop().is_none());
}

#[test]
fn workers_share_queue_without_loss_or_duplication() {
    let n = 7;
    let mut jobs = VecDeque::new();
    for i in 0..n {
        jobs.push_back(job(&format!("f{}", i)));
    }
    let mut queue = JobQueue::new(jobs);
    let mut per_worker: Vec<Vec<String>> = vec![Vec::new(), Vec::new(), Vec::new()];
    let mut attempts = 0;
    let mut successes = 0;
    while attempts < 20 {
        let worker = (attempts * 5 + 1) % 3;
        if let Some(j) = queue.try_pop() {
            per_worker[worker].push(j.source_file_name().clone());
            successes += 1;
        }
        attempts += 1;
    }
    assert_eq!(successes, n);
    let mut all: Vec<String> = per_worker.concat();
    all.sort();
    let expected: Vec<String> = (0..n).map(|i| format!("f{}", i)).collect();
    assert_eq!(all, expected);
}

#[test]
fn decode_rgba_fills_buffer() {
    let data: Vec<u8> = (0..24).collect();
    let bytes = rgba_png(3, 2, &data);
    let mut buffer = vec![7; 100];
    assert_eq!(decode(&bytes, &mut buffer), Ok((3, 2)));
    assert_eq!(buffer, data);
}

#[test]
fn decode_rejects_grayscale() {
    let bytes = png_bytes(2, 2, png::ColorType::Grayscale, png::BitDepth::Eight, &[1, 2, 3, 4]);
    let mut buffer = Vec::new();
    assert_eq!(decode(&bytes, &mut buffer), Err(JobError::UnsupportedFormat));
}

#[test]
fn decode_rejects_sixteen_bit() {
    let bytes = png_bytes(1, 1, png::ColorType::Rgba, png::BitDepth::Sixteen, &[0; 8]);
    let mut buffer = Vec::new();
    assert_eq!(decode(&bytes, &mut buffer), Err(JobError::UnsupportedFormat));
}

#[test]
fn decode_rejects_garbage() {
    let mut buffer = Vec::new();
    assert_eq!(decode(&[1, 2, 3, 4, 5], &mut buffer), Err(JobError::DecodeError));
    let mut truncated = rgba_png(4, 4, &[5; 64]);
    truncated.truncate(truncated.len() / 2);
    assert_eq!(decode(&truncated, &mut buffer), Err(JobError::DecodeError));
}

#[test]
fn check_frame_truncates_and_rejects() {
    let info = FrameInfo { width: 2, height: 3, color: ColorKind::Rgba, bit_depth: 8, line_size: 8 };
    let mut buffer = vec![1; 30];
    assert_eq!(check_frame(&info, &mut buffer), Ok((2, 3)));
    assert_eq!(buffer.len(), 24);
    let gray = FrameInfo { color: ColorKind::Grayscale, ..info };
    assert_eq!(check_frame(&gray, &mut buffer), Err(JobError::UnsupportedFormat));
    assert_eq!(buffer.len(), 24);
    let deep = FrameInfo { bit_depth: 16, ..info };
    assert_eq!(check_frame(&deep, &mut buffer), Err(JobError::UnsupportedFormat));
    let huge = FrameInfo { line_size: usize::MAX, ..info };
    assert_eq!(check_frame(&huge, &mut buffer), Err(JobError::DecodeError));
}

#[test]
fn encode_writes_grayscale_png() {
    let samples = vec![0, 64, 128, 255, 1, 2];
    let bytes = encode(3, 2, &samples).unwrap();
    assert_ne!(bytes, samples);
    assert_eq!(&bytes[1..4], b"PNG");
    assert_eq!(png_header_dims(&bytes), (3, 2, png::ColorType::Grayscale));
    let mut reader = png::Decoder::new(bytes.as_slice()).read_info().unwrap();
    let mut pixels = vec![0; reader.output_buffer_size()];
    reader.next_frame(&mut pixels).unwrap();
    assert_eq!(pixels, samples);
    assert_eq!(encode(3, 2, &samples).unwrap(), bytes);
}

#[test]
fn encode_rejects_wrong_length() {
    assert_eq!(encode(2, 2, &[0, 0, 0]), Err(JobError::EncodeError));
}

#[test]
fn round_trip_keeps_dimensions() {
    let mut data = Vec::new();
    for i in 0..(5 * 3) {
        data.extend_from_slice(&rgba_of(i as f32 / 15.0));
    }
    let source = rgba_png(5, 3, &data);
    let mut source_buffer = Vec::new();
    let (w, h) = decode(&source, &mut source_buffer).unwrap();
    let mut dest_buffer = Vec::new();
    unpack(&source_buffer, |bits| intensity(bits, 1.0, 0.0), &mut dest_buffer);
    let bytes = encode(w, h, &dest_buffer).unwrap();
    let (w2, h2, _) = png_header_dims(&bytes);
    assert_eq!((w2, h2), (5, 3));
}

#[test]
fn convert_runs_whole_pipeline() {
    let data = [0x00, 0x00, 0x00, 0x3F, 0x80, 0x00, 0x00, 0x3F];
    let source = rgba_png(2, 1, &data);
    let mut buffers = JobBuffers::new();
    let bytes = buffers.convert(&source, |bits| intensity(bits, 1.0, 0.0)).unwrap();
    let mut reader = png::Decoder::new(bytes.as_slice()).read_info().unwrap();
    let mut pixels = vec![0; reader.output_buffer_size()];
    reader.next_frame(&mut pixels).unwrap();
    assert_eq!(pixels, vec![127, 255]);
    assert_eq!(buffers.convert(&[0, 1, 2], |bits| bits as u8), Err(JobError::DecodeError));
}

#[test]
fn corrupt_job_spares_the_rest() {
    let good = rgba_png(1, 1, &[0, 0, 0, 0x3F]);
    let sources = vec![good.clone(), vec![0x89, b'P', b'N', b'G', 0, 0], good.clone(), good];
    let mut buffers = JobBuffers::new();
    let mut tally = Tally::new();
    for source in &sources {
        let outcome = buffers.convert(source, |bits| intensity(bits, 1.0, 0.0));
        tally.record(outcome.is_ok());
    }
    assert_eq!(tally.written(), 3);
    assert_eq!(tally.failed(), 1);
}

#[test]
fn equal_clip_planes_map_nan_to_zero() {
    let mut source = Vec::new();
    for d in [1.0f32, 2.0, 0.0] {
        source.extend_from_slice(&rgba_of(d));
    }
    let mut dest = Vec::new();
    unpack(&source, |bits| intensity(bits, 1.0, 1.0), &mut dest);
    assert_eq!(dest, vec![0, 255, 0]);
}

#[test]
fn new_tally_is_empty() {
    let mut tally = Tally::new();
    assert_eq!((tally.written(), tally.failed()), (0, 0));
    tally.record(false);
    tally.record(true);
    assert_eq!((tally.written(), tally.failed()), (1, 1));
}

#[test]
fn encode_rejects_zero_dimensions() {
    assert_eq!(encode(0, 3, &[]), Err(JobError::EncodeError));
    assert_eq!(encode(3, 0, &[]), Err(JobError::EncodeError));
    assert!(encode(1, 1, &[9]).is_ok());
}

#[test]
fn decode_twice_clears_stale_bytes() {
    let bytes = rgba_png(1, 2, &[1, 2, 3, 4, 5, 6, 7, 8]);
    let mut first = vec![0; 50];
    let mut second = Vec::new();
    assert_eq!(decode(&bytes, &mut first), decode(&bytes, &mut second));
    assert_eq!(first, second);
    assert_eq!(first.len(), 8);
}
