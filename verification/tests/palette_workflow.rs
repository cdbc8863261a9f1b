use any_palette::choices::{AlgorithmChoice, Downsample, SwatchFinder, ThemeChoice, ThemeKind};
use any_palette::prepare::{decode_image, decode_outcome, downscale_bound, pixel_buffer, preview_bound, ExtractError, PREVIEW_MAX_EDGE};
use any_palette::state::{
    source_label_for, swatch_request, AppState, JobRequest, PollEvent, INITIAL_SWATCH_COUNT,
};
use any_palette::swatch::{swatches_from_colors, Swatch};
use any_palette::text::{decimal_string, hex_string};

#[test]
fn theme_labels_and_order() {
    let all = ThemeChoice::all();
    let labels: Vec<&str> = all.iter().map(|t| t.label()).collect();
    assert_eq!(labels, vec!["Default", "Colorful", "Vivid", "Muted", "Light", "Dark"]);
    assert_eq!(ThemeChoice::default(), ThemeChoice::Default);
}

#[test]
fn algorithm_labels_and_order() {
    let all = AlgorithmChoice::all();
    let labels: Vec<&str> = all.iter().map(|a| a.label()).collect();
    assert_eq!(labels, vec!["DBSCAN++ (fast)", "DBSCAN (accurate)", "K-Means (fastest)"]);
    assert_eq!(AlgorithmChoice::default(), AlgorithmChoice::DBSCANpp);
}

#[test]
fn downsample_labels_edges_and_order() {
    let all = Downsample::all();
    assert_eq!(
        all,
        vec![Downsample::Px1024, Downsample::Px1600, Downsample::Px2048, Downsample::Off]
    );
    assert_eq!(Downsample::Off.label(), "Off (full res)");
    assert_eq!(Downsample::Px1024.label(), "1024px");
    assert_eq!(Downsample::Px1600.label(), "1600px");
    assert_eq!(Downsample::Px2048.label(), "2048px");
    assert_eq!(Downsample::Off.max_edge(), None);
    assert_eq!(Downsample::Px1024.max_edge(), Some(1024));
    assert_eq!(Downsample::Px1600.max_edge(), Some(1600));
    assert_eq!(Downsample::Px2048.max_edge(), Some(2048));
    assert_eq!(Downsample::default(), Downsample::Px1600);
}

#[test]
fn labels_are_distinct() {
    let t: Vec<&str> = ThemeChoice::all().iter().map(|x| x.label()).collect();
    for i in 0..t.len() {
        for j in 0..t.len() {
            assert_eq!(i == j, t[i] == t[j]);
        }
    }
    let d: Vec<&str> = Downsample::all().iter().map(|x| x.label()).collect();
    for i in 0..d.len() {
        for j in 0..d.len() {
            assert_eq!(i == j, d[i] == d[j]);
        }
    }
}

#[test]
fn decimal_rendering() {
    assert_eq!(decimal_string(0), "0");
    assert_eq!(decimal_string(7), "7");
    assert_eq!(decimal_string(10), "10");
    assert_eq!(decimal_string(1234567), "1234567");
    assert_eq!(decimal_string(usize::MAX), usize::MAX.to_string());
}

#[test]
fn hex_codes_match_palette_colours() {
    assert_eq!(hex_string(0x00, 0x77, 0x49), "#007749");
    assert_eq!(hex_string(0xE0, 0x3C, 0x31), "#E03C31");
    assert_eq!(hex_string(0x00, 0x14, 0x89), "#001489");
    assert_eq!(hex_string(0, 0, 0), "#000000");
    assert_eq!(hex_string(255, 255, 255), "#FFFFFF");
    assert_eq!(hex_string(0xab, 0xcd, 0xef), format!("#{:02X}{:02X}{:02X}", 0xab, 0xcd, 0xef));
}

#[test]
fn hex_codes_are_distinct_and_upper_case() {
    let a = hex_string(1, 2, 3);
    let b = hex_string(1, 2, 4);
    assert_ne!(a, b);
    for (r, g, b) in [(0u8, 0u8, 0u8), (0xfa, 0xce, 0xbd), (12, 200, 99)] {
        let h = hex_string(r, g, b);
        assert_eq!(h.to_uppercase(), h);
        assert_eq!(h.len(), 7);
        assert_eq!(u8::from_str_radix(&h[1..3], 16).unwrap(), r);
        assert_eq!(u8::from_str_radix(&h[3..5], 16).unwrap(), g);
        assert_eq!(u8::from_str_radix(&h[5..7], 16).unwrap(), b);
    }
}

#[test]
fn swatch_accessors() {
    let s = Swatch::new(0xfa, 0x80, 0x72, 1234);
    assert_eq!(s.hex(), "#FA8072");
    assert_eq!(s.rgb(), (0xfa, 0x80, 0x72));
    assert_eq!(s.population(), 1234);
    assert_eq!(s.copy_text(), "#FA8072");
    assert_eq!(s.copy_text(), s.hex().to_uppercase());
    assert_eq!(s.population_label(), "pop 1234");
    assert_eq!(Swatch::new(0, 0, 0, 0).population_label(), "pop 0");
}

#[test]
fn swatches_keep_order_and_values() {
    let colors = vec![(255u8, 0u8, 0u8, 50usize), (0, 255, 0, 30), (0, 0, 255, 20)];
    let out = swatches_from_colors(&colors);
    assert_eq!(out.len(), 3);
    assert_eq!(out[0].hex(), "#FF0000");
    assert_eq!(out[1].hex(), "#00FF00");
    assert_eq!(out[2].hex(), "#0000FF");
    assert_eq!(out[0].population(), 50);
    assert_eq!(out[2].population(), 20);
    assert!(swatches_from_colors(&vec![]).is_empty());
}

#[test]
fn downscale_only_when_larger_than_the_bound() {
    assert_eq!(downscale_bound(Downsample::Px1600, 4000, 3000), Some(1600));
    assert_eq!(downscale_bound(Downsample::Px1600, 1000, 1601), Some(1600));
    assert_eq!(downscale_bound(Downsample::Px1600, 1600, 1600), None);
    assert_eq!(downscale_bound(Downsample::Px1024, 800, 600), None);
    assert_eq!(downscale_bound(Downsample::Px2048, 2049, 10), Some(2048));
    assert_eq!(downscale_bound(Downsample::Off, 100000, 100000), None);
}

#[test]
fn preview_shrinks_above_its_bound() {
    assert_eq!(PREVIEW_MAX_EDGE, 1200);
    assert_eq!(preview_bound(1200, 800), None);
    assert_eq!(preview_bound(1201, 800), Some(1200));
    assert_eq!(preview_bound(10, 5000), Some(1200));
}

#[test]
fn pixel_buffer_accepts_four_bytes_per_pixel() {
    let pixels = [255u8, 0, 0, 255, 0, 255, 0, 255, 0, 0, 255, 255, 255, 255, 0, 255];
    let data = pixel_buffer(2, 2, &pixels).unwrap();
    assert_eq!(data.width(), 2);
    assert_eq!(data.height(), 2);
    assert_eq!(data.data(), &pixels);
    let wide = [7u8; 24];
    let data = pixel_buffer(3, 2, &wide).unwrap();
    assert_eq!((data.width(), data.height()), (3, 2));
}

#[test]
fn pixel_buffer_refuses_a_short_buffer() {
    let pixels = [0u8; 12];
    match pixel_buffer(2, 2, &pixels) {
        Err(ExtractError::PixelBuffer { expected, actual }) => {
            assert_eq!(expected, 16);
            assert_eq!(actual, 12);
        }
        _ => panic!("a short buffer must be refused"),
    }
}

#[test]
fn pixel_buffer_message_matches_the_extractor_error() {
    let pixels = [0u8; 12];
    let err = pixel_buffer(2, 2, &pixels).err().unwrap();
    let outside = auto_palette::ImageData::new(2, 2, &pixels).err().unwrap();
    assert_eq!(err.message(), format!("auto-palette ImageData failed: {outside:?}"));
    assert_eq!(
        err.message(),
        "auto-palette ImageData failed: UnexpectedLength { expected: 16, actual: 12 }"
    );
}

#[test]
fn error_messages() {
    assert_eq!(ExtractError::OpenFailed("x".to_string()).message(), "Failed to open image: x");
    assert_eq!(ExtractError::DecodeFailed("y".to_string()).message(), "Decode failed: y");
    assert_eq!(ExtractError::BuildFailed("b".to_string()).message(), "Palette build failed: b");
    assert_eq!(ExtractError::FindFailed("f".to_string()).message(), "find_swatches failed: f");
    assert_eq!(
        ExtractError::FindWithThemeFailed("t".to_string()).message(),
        "find_swatches_with_theme failed: t"
    );
}

#[test]
fn source_labels() {
    assert_eq!(source_label_for(Some("photo.png".to_string())), "photo.png");
    assert_eq!(source_label_for(None), "dropped image");
}

#[test]
fn swatch_requests_ask_for_at_least_one() {
    assert_eq!(swatch_request(0), 1);
    assert_eq!(swatch_request(1), 1);
    assert_eq!(swatch_request(32), 32);
}

#[test]
fn initial_state_and_first_frame() {
    let mut s = AppState::new();
    assert_eq!(s.theme, ThemeChoice::Default);
    assert_eq!(s.algorithm, AlgorithmChoice::DBSCANpp);
    assert_eq!(s.downsample, Downsample::Px1600);
    assert_eq!(s.max_swatches, 0);
    assert!(!s.busy && !s.job_pending);
    assert!(s.error.is_none() && s.source_label.is_empty() && s.swatches.is_empty());
    s.begin_frame();
    assert_eq!(s.max_swatches, INITIAL_SWATCH_COUNT);
    assert_eq!(INITIAL_SWATCH_COUNT, 8);
    s.max_swatches = 3;
    s.begin_frame();
    assert_eq!(s.max_swatches, 3);
}

#[test]
fn start_then_finish() {
    let mut s = AppState::default();
    s.begin_frame();
    s.theme = ThemeChoice::Vivid;
    s.error = Some("old".to_string());
    let req = s.start_extraction();
    assert_eq!(
        req,
        JobRequest {
            theme: ThemeChoice::Vivid,
            algorithm: AlgorithmChoice::DBSCANpp,
            downsample: Downsample::Px1600,
            max_swatches: 8,
            ticket: 1,
        }
    );
    assert!(s.busy && s.job_pending && s.error.is_none());
    s.poll(PollEvent::Pending);
    assert!(s.busy && s.job_pending);
    s.poll(PollEvent::Finished {
        ticket: req.ticket,
        file_name: Some("sky.jpg".to_string()),
        swatches: vec![Swatch::new(1, 2, 3, 4)],
    });
    assert!(!s.busy && !s.job_pending && s.error.is_none());
    assert_eq!(s.source_label, "sky.jpg");
    assert_eq!(s.swatches.len(), 1);
    assert_eq!(s.swatches[0].hex(), "#010203");
    // A late answer is ignored.
    s.poll(PollEvent::Failed { ticket: req.ticket, message: "late".to_string() });
    assert!(s.error.is_none());
}

#[test]
fn start_then_fail_keeps_previous_swatches() {
    let mut s = AppState::new();
    s.max_swatches = 0;
    let req = s.start_extraction();
    assert_eq!(req.max_swatches, 1);
    s.poll(PollEvent::Finished {
        ticket: req.ticket,
        file_name: None,
        swatches: vec![Swatch::new(9, 9, 9, 1)],
    });
    assert_eq!(s.source_label, "dropped image");
    let req2 = s.start_extraction();
    s.poll(PollEvent::Failed { ticket: req2.ticket, message: "Decode failed: bad".to_string() });
    assert_eq!(s.error.as_deref(), Some("Decode failed: bad"));
    assert_eq!(s.swatches.len(), 1);
    assert_eq!(s.source_label, "dropped image");
    assert!(!s.busy && !s.job_pending);
}

#[test]
fn disconnect_ends_the_job() {
    let mut s = AppState::new();
    let req = s.start_extraction();
    s.poll(PollEvent::Disconnected { ticket: req.ticket });
    assert!(!s.busy && !s.job_pending && s.error.is_none() && s.swatches.is_empty());
}

#[test]
fn poll_without_a_job_changes_nothing() {
    let mut s = AppState::new();
    s.poll(PollEvent::Finished { ticket: 0, file_name: Some("a.png".to_string()), swatches: vec![] });
    s.poll(PollEvent::Failed { ticket: 0, message: "x".to_string() });
    s.poll(PollEvent::Disconnected { ticket: 0 });
    assert!(s.source_label.is_empty() && s.error.is_none() && !s.busy);
}

#[test]
fn decoding_garbage_fails_with_the_decoder_message() {
    let bytes = [1u8, 2, 3, 4, 5];
    let outside = image::load_from_memory(&bytes).err().unwrap();
    match decode_image(&bytes) {
        Err(e) => {
            assert!(matches!(e, ExtractError::DecodeFailed(_)));
            assert_eq!(e.message(), format!("Decode failed: {outside}"));
        }
        Ok(_) => panic!("garbage must not decode"),
    }
}

#[test]
fn decoding_a_png_gives_its_pixels() {
    let mut img = image::RgbaImage::new(3, 2);
    img.put_pixel(0, 0, image::Rgba([10, 20, 30, 255]));
    let mut bytes: Vec<u8> = Vec::new();
    img.write_to(&mut std::io::Cursor::new(&mut bytes), image::ImageFormat::Png).unwrap();
    let decoded = decode_image(&bytes).ok().unwrap();
    assert_eq!(decoded.width(), 3);
    assert_eq!(decoded.height(), 2);
    let rgba = decoded.to_rgba8();
    assert_eq!(rgba.get_pixel(0, 0).0, [10, 20, 30, 255]);
    let data = pixel_buffer(3, 2, rgba.as_raw()).unwrap();
    assert_eq!(data.data().len(), 24);
}

#[test]
fn theme_settings_choose_the_finder() {
    assert_eq!(ThemeChoice::Default.finder(), SwatchFinder::Prominence);
    assert_eq!(ThemeChoice::Colorful.finder(), SwatchFinder::Themed(ThemeKind::Colorful));
    assert_eq!(ThemeChoice::Vivid.finder(), SwatchFinder::Themed(ThemeKind::Vivid));
    assert_eq!(ThemeChoice::Muted.finder(), SwatchFinder::Themed(ThemeKind::Muted));
    assert_eq!(ThemeChoice::Light.finder(), SwatchFinder::Themed(ThemeKind::Light));
    assert_eq!(ThemeChoice::Dark.finder(), SwatchFinder::Themed(ThemeKind::Dark));
}

#[test]
fn a_later_start_discards_the_earlier_job() {
    let mut s = AppState::new();
    let first = s.start_extraction();
    let second = s.start_extraction();
    assert_ne!(first.ticket, second.ticket);
    s.poll(PollEvent::Finished {
        ticket: first.ticket,
        file_name: Some("old.png".to_string()),
        swatches: vec![Swatch::new(1, 1, 1, 1)],
    });
    assert!(s.busy && s.job_pending && s.swatches.is_empty());
    s.poll(PollEvent::Disconnected { ticket: first.ticket });
    assert!(s.busy && s.job_pending);
    s.poll(PollEvent::Finished {
        ticket: second.ticket,
        file_name: Some("new.png".to_string()),
        swatches: vec![],
    });
    assert!(!s.busy && !s.job_pending);
    assert_eq!(s.source_label, "new.png");
}

#[test]
fn tickets_wrap_around() {
    let mut s = AppState::new();
    s.job_ticket = u64::MAX;
    assert_eq!(s.start_extraction().ticket, 0);
}

#[test]
fn decode_outcomes_map_to_the_workflow() {
    match decode_outcome(Err("bad header".to_string())) {
        Err(e) => {
            assert!(matches!(&e, ExtractError::DecodeFailed(d) if d == "bad header"));
            assert_eq!(e.message(), "Decode failed: bad header");
        }
        Ok(_) => panic!("a failure must stay a failure"),
    }
    let img = image::DynamicImage::new_rgba8(4, 3);
    let out = decode_outcome(Ok(img)).ok().unwrap();
    assert_eq!((out.width(), out.height()), (4, 3));
}
