use image::{DynamicImage, ImageFormat, Rgba, RgbaImage};
use image_convert::batch::{plan, report, transcode, FileError};
use image_convert::format::{resolve, ResolveError};

fn sample(width: u32, height: u32) -> DynamicImage {
    let img = RgbaImage::from_fn(width, height, |x, y| {
        Rgba([(x * 37 % 256) as u8, (y * 53 % 256) as u8, ((x + y) % 256) as u8, 255])
    });
    DynamicImage::ImageRgba8(img)
}

fn bytes_of(img: &DynamicImage, format: ImageFormat) -> Vec<u8> {
    let mut out = Vec::new();
    img.write_to(std::io::Cursor::new(&mut out), format).unwrap();
    out
}

fn round_trip(token: &str, name: &str, format: ImageFormat) -> (DynamicImage, DynamicImage) {
    let source_image = sample(7, 5);
    let input = bytes_of(&source_image, format);
    let f = resolve(token).unwrap();
    let output = transcode(name, Ok(input), &f).unwrap();
    let decoded = image::load_from_memory_with_format(&output, format).unwrap();
    (source_image, decoded)
}

#[test]
fn png_round_trip_is_lossless() {
    let (a, b) = round_trip("png", "a.png", ImageFormat::Png);
    assert_eq!((b.width(), b.height()), (7, 5));
    assert_eq!(a.to_rgba8(), b.to_rgba8());
}

#[test]
fn bmp_round_trip_is_lossless() {
    let (a, b) = round_trip("bmp", "a.bmp", ImageFormat::Bmp);
    assert_eq!((b.width(), b.height()), (7, 5));
    assert_eq!(a.to_rgba8(), b.to_rgba8());
}

#[test]
fn jpeg_round_trip_keeps_dimensions() {
    let (_, b) = round_trip("jpg", "a.jpg", ImageFormat::Jpeg);
    assert_eq!((b.width(), b.height()), (7, 5));
}

#[test]
fn png_to_webp_decodes_as_webp() {
    let input = bytes_of(&sample(9, 4), ImageFormat::Png);
    let out = transcode("a.png", Ok(input), &resolve("webp").unwrap()).unwrap();
    assert_eq!(image::guess_format(&out).unwrap(), ImageFormat::WebP);
    let img = image::load_from_memory_with_format(&out, ImageFormat::WebP).unwrap();
    assert_eq!((img.width(), img.height()), (9, 4));
}

#[test]
fn ico_output_is_32_by_32() {
    let input = bytes_of(&sample(500, 500), ImageFormat::Png);
    let out = transcode("big.png", Ok(input), &resolve("ico").unwrap()).unwrap();
    let img = image::load_from_memory_with_format(&out, ImageFormat::Ico).unwrap();
    assert_eq!((img.width(), img.height()), (32, 32));
}

#[test]
fn failed_read_is_a_decode_failure() {
    let r = transcode("missing.png", Err("not found".to_string()), &resolve("png").unwrap());
    assert_eq!(r, Err(FileError::Decode("not found".to_string())));
}

#[test]
fn unknown_source_extension_is_a_decode_failure() {
    let input = bytes_of(&sample(3, 3), ImageFormat::Png);
    let r = transcode("a.xyz", Ok(input), &resolve("png").unwrap());
    assert!(matches!(r, Err(FileError::Decode(_))));
}

#[test]
fn source_extension_is_case_insensitive() {
    let input = bytes_of(&sample(3, 2), ImageFormat::Png);
    let out = transcode("A.PNG", Ok(input), &resolve("bmp").unwrap()).unwrap();
    let img = image::load_from_memory_with_format(&out, ImageFormat::Bmp).unwrap();
    assert_eq!((img.width(), img.height()), (3, 2));
}

#[test]
fn corrupt_content_is_a_decode_failure() {
    let r = transcode("a.png", Ok(vec![1, 2, 3, 4, 5]), &resolve("webp").unwrap());
    assert!(matches!(r, Err(FileError::Decode(_))));
}

#[test]
fn oversized_gif_is_an_encode_failure() {
    let input = bytes_of(&sample(70000, 1), ImageFormat::Png);
    let r = transcode("wide.png", Ok(input), &resolve("gif").unwrap());
    assert!(matches!(r, Err(FileError::Encode(_))));
}

#[test]
fn batch_with_one_missing_file() {
    let inputs = vec!["a.png".to_string(), "dir/missing.png".to_string(), "c.bmp".to_string()];
    let batch = plan("webp", &inputs).unwrap();
    let contents = vec![
        Ok(bytes_of(&sample(4, 4), ImageFormat::Png)),
        Err("no such file".to_string()),
        Ok(bytes_of(&sample(2, 3), ImageFormat::Bmp)),
    ];
    let mut results = Vec::new();
    for (job, read) in batch.jobs.iter().zip(contents) {
        results.push(transcode(&job.input_path, read, &batch.format).map(|_| ()));
    }
    let outcomes = report(batch.jobs, results);
    assert_eq!(outcomes.len(), 3);
    let paths: Vec<(&str, &str)> =
        outcomes.iter().map(|o| (o.input_path.as_str(), o.output_path.as_str())).collect();
    assert_eq!(paths, vec![("a.png", "a.webp"), ("dir/missing.png", "dir/missing.webp"), ("c.bmp", "c.webp")]);
    assert_eq!(outcomes[0].result, Ok(()));
    assert_eq!(outcomes[1].result, Err(FileError::Decode("no such file".to_string())));
    assert_eq!(outcomes[2].result, Ok(()));
}

#[test]
fn two_inputs_give_two_distinct_outcomes() {
    let inputs = vec!["x.png".to_string(), "y.png".to_string()];
    let batch = plan("bmp", &inputs).unwrap();
    let results = vec![Ok(()), Ok(())];
    let outcomes = report(batch.jobs, results);
    let mut seen: Vec<&str> = outcomes.iter().map(|o| o.input_path.as_str()).collect();
    seen.sort();
    assert_eq!(seen, vec!["x.png", "y.png"]);
}

#[test]
fn bad_token_fails_the_whole_batch() {
    let inputs = vec!["a.png".to_string(), "b.png".to_string()];
    assert!(matches!(plan("zzz", &inputs), Err(ResolveError::Unsupported(t)) if t == "zzz"));
    assert!(matches!(plan("svg", &inputs), Err(ResolveError::Unavailable(t)) if t == "svg"));
}

#[test]
fn empty_batch_has_no_jobs() {
    let batch = plan("png", &Vec::new()).unwrap();
    assert!(batch.jobs.is_empty());
    assert!(report(batch.jobs, Vec::new()).is_empty());
}

#[test]
fn non_square_ico_output_is_32_by_32() {
    let input = bytes_of(&sample(500, 250), ImageFormat::Png);
    let out = transcode("wide.png", Ok(input), &resolve("ico").unwrap()).unwrap();
    let img = image::load_from_memory_with_format(&out, ImageFormat::Ico).unwrap();
    assert_eq!((img.width(), img.height()), (32, 32));
}

#[test]
fn other_formats_keep_the_size() {
    for (token, format) in [("png", ImageFormat::Png), ("tga", ImageFormat::Tga), ("tiff", ImageFormat::Tiff), ("gif", ImageFormat::Gif)] {
        let input = bytes_of(&sample(13, 6), ImageFormat::Png);
        let out = transcode("p.png", Ok(input), &resolve(token).unwrap()).unwrap();
        assert_eq!(image::guess_format(&out).ok(), if format == ImageFormat::Tga { None } else { Some(format) });
        let img = image::load_from_memory_with_format(&out, format).unwrap();
        assert_eq!((img.width(), img.height()), (13, 6), "token {}", token);
    }
}
