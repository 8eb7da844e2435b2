use soundtime::media::plan_stream;
use soundtime::media::media_file_servable;
use soundtime::radio::RadioNextResponse;
use soundtime::media::{
    audio_content_type, batch_counts, batch_too_large, check_cover_image, check_upload,
    content_range, flac_path, media_content_type, origin_node, p2p_hash, parse_range_header,
    public_cover_url, stream_window, upload_extension, upload_names, validate_audio_magic_bytes,
    AudioTags, CoverRejection, UploadForm, UploadRejection, may_change_cover, p2p_stream_refusal,
    P2pStreamRefusal,
};
use soundtime::pagination::{page_window, total_pages, PaginationParams};
use soundtime::search::{
    build_tsquery, rank_positions, search_text, search_window, SearchParams, SearchResults,
};

// ─── Audio magic bytes ──────────────────────────────────────────────────

#[test]
fn test_magic_bytes_mp3_id3() {
    let mut data = b"ID3".to_vec();
    data.extend_from_slice(&[0u8; 12]);
    assert!(validate_audio_magic_bytes(&data));
}

#[test]
fn test_magic_bytes_mp3_sync() {
    let mut data = vec![0xFF, 0xE0];
    data.extend_from_slice(&[0u8; 12]);
    assert!(validate_audio_magic_bytes(&data));
}

#[test]
fn test_magic_bytes_flac() {
    let mut data = b"fLaC".to_vec();
    data.extend_from_slice(&[0u8; 12]);
    assert!(validate_audio_magic_bytes(&data));
}

#[test]
fn test_magic_bytes_ogg() {
    let mut data = b"OggS".to_vec();
    data.extend_from_slice(&[0u8; 12]);
    assert!(validate_audio_magic_bytes(&data));
}

#[test]
fn test_magic_bytes_wav() {
    let mut data = b"RIFF".to_vec();
    data.extend_from_slice(&[0x00, 0x00, 0x00, 0x00]);
    data.extend_from_slice(b"WAVE");
    assert!(validate_audio_magic_bytes(&data));
}

#[test]
fn test_magic_bytes_aiff() {
    let mut data = b"FORM".to_vec();
    data.extend_from_slice(&[0x00, 0x00, 0x00, 0x00]);
    data.extend_from_slice(b"AIFF");
    assert!(validate_audio_magic_bytes(&data));
}

#[test]
fn test_magic_bytes_aac_m4a() {
    let mut data = vec![0x00, 0x00, 0x00, 0x20];
    data.extend_from_slice(b"ftyp");
    data.extend_from_slice(&[0u8; 8]);
    assert!(validate_audio_magic_bytes(&data));
}

#[test]
fn test_magic_bytes_wma() {
    let mut data = vec![0x30, 0x26, 0xB2, 0x75];
    data.extend_from_slice(&[0u8; 12]);
    assert!(validate_audio_magic_bytes(&data));
}

#[test]
fn test_magic_bytes_too_short() {
    let data = b"ID";
    assert!(!validate_audio_magic_bytes(data));
}

#[test]
fn test_magic_bytes_random() {
    let data = vec![0x12, 0x34, 0x56, 0x78, 0x9A, 0xBC, 0xDE, 0xF0, 0x11, 0x22, 0x33, 0x44];
    assert!(!validate_audio_magic_bytes(&data));
}

#[test]
fn test_magic_bytes_elf() {
    let mut data = vec![0x7F];
    data.extend_from_slice(b"ELF");
    data.extend_from_slice(&[0u8; 12]);
    assert!(!validate_audio_magic_bytes(&data));
}

#[test]
fn test_magic_bytes_pdf() {
    let mut data = b"%PDF-1.4".to_vec();
    data.extend_from_slice(&[0u8; 8]);
    assert!(!validate_audio_magic_bytes(&data));
}

#[test]
fn test_magic_bytes_empty() {
    let data: &[u8] = &[];
    assert!(!validate_audio_magic_bytes(data));
}

#[test]
fn magic_bytes_wave_needs_full_header() {
    // "RIFF" without "WAVE" at offset 8 is not audio.
    let mut data = b"RIFF".to_vec();
    data.extend_from_slice(&[0u8; 4]);
    data.extend_from_slice(b"AVI ");
    assert!(!validate_audio_magic_bytes(&data));
}

// ─── Range headers and stream windows ───────────────────────────────────

#[test]
fn test_parse_range_open_end() {
    assert_eq!(parse_range_header("bytes=0-"), Some((0, None)));
}

#[test]
fn test_parse_range_full() {
    assert_eq!(parse_range_header("bytes=100-200"), Some((100, Some(200))));
}

#[test]
fn test_parse_range_from_start() {
    assert_eq!(parse_range_header("bytes=0-499"), Some((0, Some(499))));
}

#[test]
fn test_parse_range_no_prefix() {
    assert_eq!(parse_range_header("0-100"), None);
}

#[test]
fn test_parse_range_invalid() {
    assert_eq!(parse_range_header("invalid"), None);
}

#[test]
fn test_parse_range_empty() {
    assert_eq!(parse_range_header(""), None);
}

#[test]
fn parse_range_edge_cases() {
    assert_eq!(parse_range_header("bytes=5"), Some((5, None)));
    assert_eq!(parse_range_header("bytes=1-x"), Some((1, None)));
    assert_eq!(parse_range_header("bytes=1-2-3"), Some((1, None)));
    assert_eq!(parse_range_header("bytes=+7-+9"), Some((7, Some(9))));
    assert_eq!(parse_range_header("bytes=-5"), None);
    assert_eq!(parse_range_header("bytes=18446744073709551616-"), None);
}

#[test]
fn stream_window_clamps_to_file() {
    let w = stream_window(Some((100, Some(5000))), 1000);
    assert_eq!((w.start, w.end, w.length, w.partial), (100, 999, 900, true));
    let w = stream_window(Some((0, None)), 10);
    assert_eq!((w.start, w.end, w.length, w.partial), (0, 9, 10, true));
    let w = stream_window(None, 10);
    assert_eq!((w.start, w.end, w.length, w.partial), (0, 9, 10, false));
    assert_eq!(content_range(100, 999, 1000), "bytes 100-999/1000");
}

#[test]
fn content_types() {
    assert_eq!(audio_content_type("mp3"), "audio/mpeg");
    assert_eq!(audio_content_type("aiff"), "audio/aiff");
    assert_eq!(audio_content_type("wma"), "application/octet-stream");
    assert_eq!(media_content_type("covers/a.jpeg"), "image/jpeg");
    assert_eq!(media_content_type("covers/a.gif"), "image/gif");
    assert_eq!(media_content_type("covers/a"), "application/octet-stream");
}

#[test]
fn p2p_paths() {
    assert_eq!(p2p_hash("p2p://abc123").as_deref(), Some("abc123"));
    assert_eq!(p2p_hash("music/a.mp3"), None);
    assert_eq!(origin_node("p2p://node-1"), "node-1");
    assert_eq!(origin_node("example.org"), "example.org");
}

// ─── Covers ─────────────────────────────────────────────────────────────

#[test]
fn cover_images() {
    assert_eq!(check_cover_image(&[0xFF, 0xD8]), Err(CoverRejection::TooSmall));
    assert_eq!(check_cover_image(&[0xFF, 0xD8, 0xFF, 0xE0]), Ok(()));
    assert_eq!(check_cover_image(&[0x89, 0x50, 0x4E, 0x47, 0, 0]), Ok(()));
    let mut webp = b"RIFF\0\0\0\0WEBP".to_vec();
    webp.push(0);
    assert_eq!(check_cover_image(&webp), Ok(()));
    assert_eq!(check_cover_image(b"GIF89a"), Err(CoverRejection::NotAnImage));
    let mut big = vec![0xFF, 0xD8, 0xFF];
    big.resize(10 * 1024 * 1024 + 1, 0);
    assert_eq!(check_cover_image(&big), Err(CoverRejection::TooLarge));
    assert_eq!(CoverRejection::TooLarge.message(), "Cover image exceeds 10MB limit");
}

#[test]
fn test_album_cover_url_prepend_api() {
    assert_eq!(public_cover_url("covers/test.jpg"), "/api/media/covers/test.jpg");
}

#[test]
fn test_album_cover_url_keeps_api_prefix() {
    assert_eq!(public_cover_url("/api/media/covers/test.jpg"), "/api/media/covers/test.jpg");
}

#[test]
fn test_album_cover_url_keeps_http() {
    assert_eq!(public_cover_url("https://example.com/cover.jpg"), "https://example.com/cover.jpg");
}

#[test]
fn test_album_cover_url_none() {
    let cover: Option<String> = None;
    assert!(cover.as_deref().map(public_cover_url).is_none());
}

#[test]
fn cover_url_normalising_twice_is_once() {
    for u in ["covers/x.jpg", "/api/media/y.png", "http://a/b"] {
        let once = public_cover_url(u);
        assert_eq!(public_cover_url(&once), once);
    }
}

// ─── Uploads ────────────────────────────────────────────────────────────

#[test]
fn upload_checks() {
    assert_eq!(upload_extension("Song.MP3"), "mp3");
    assert_eq!(upload_extension("noext"), "");
    assert_eq!(upload_extension(".hidden"), "");
    let err = check_upload("exe", false, b"ID3").unwrap_err();
    assert_eq!(err.message(), "Unsupported format: exe");
    let err = check_upload("mp3", true, b"ID3").unwrap_err();
    assert_eq!(err, UploadRejection::NotAudio);
    let mut data = b"ID3".to_vec();
    data.extend_from_slice(&[0u8; 12]);
    assert!(check_upload("mp3", true, &data).is_ok());
    assert!(batch_too_large(51));
    assert!(!batch_too_large(50));
}

#[test]
fn upload_name_fallbacks() {
    let empty_form = UploadForm { title: None, album: None, artist: None };
    let no_tags = AudioTags { title: None, artist: None, album: None, album_artist: None };
    let n = upload_names(&empty_form, &no_tags, "dir/My Song.flac");
    assert_eq!(n.artist, "Unknown Artist");
    assert_eq!(n.album_artist, "Unknown Artist");
    assert_eq!(n.album, "Singles");
    assert_eq!(n.title, "My Song");

    let form = UploadForm { title: Some("T".into()), album: Some("A".into()), artist: Some("F".into()) };
    let tags = AudioTags {
        title: Some("tag title".into()),
        artist: Some("tag artist".into()),
        album: Some("tag album".into()),
        album_artist: Some("tag album artist".into()),
    };
    let n = upload_names(&form, &tags, "x.mp3");
    assert_eq!((n.artist.as_str(), n.album.as_str(), n.title.as_str()), ("F", "A", "T"));
    assert_eq!(n.album_artist, "tag album artist");
    let n = upload_names(&empty_form, &tags, "x.mp3");
    assert_eq!(n.artist, "tag artist");
    assert_eq!(n.title, "tag title");
}

#[test]
fn flac_rename_and_batch_counts() {
    assert_eq!(flac_path("u/1/song.aiff"), "u/1/song.flac");
    assert_eq!(flac_path("u/a.b/song"), "u/a.flac");
    assert_eq!(flac_path("noext"), "noext");
    let c = batch_counts(&vec![true, false, true]);
    assert_eq!((c.total, c.success, c.failed), (3, 2, 1));
}

// ─── Search ─────────────────────────────────────────────────────────────

#[test]
fn test_build_tsquery_single_word() {
    assert_eq!(build_tsquery("hello"), "hello:*");
}

#[test]
fn test_build_tsquery_multiple_words() {
    assert_eq!(build_tsquery("daft punk"), "daft:* & punk:*");
}

#[test]
fn test_build_tsquery_special_chars_stripped() {
    assert_eq!(build_tsquery("rock & roll"), "rock:* & roll:*");
}

#[test]
fn test_build_tsquery_empty() {
    assert_eq!(build_tsquery(""), "");
    assert_eq!(build_tsquery("   "), "");
}

#[test]
fn tsquery_keeps_hyphens_and_unicode_letters() {
    assert_eq!(build_tsquery("  hip-hop\tbeyoncé's  "), "hip-hop:* & beyoncés:*");
    assert_eq!(build_tsquery("a_b !!! c"), "a_b:* & c:*");
}

#[test]
fn search_query_window_and_order() {
    assert_eq!(search_text("  love "), Some("love".to_string()));
    assert_eq!(search_text(" \t "), None);
    let w = search_window(None, None);
    assert_eq!((w.limit, w.page, w.offset), (10, 1, 0));
    let w = search_window(Some(3), Some(500));
    assert_eq!((w.limit, w.page, w.offset), (50, 3, 100));
    let w = search_window(Some(0), Some(0));
    assert_eq!((w.limit, w.page, w.offset), (1, 1, 0));
    assert_eq!(rank_positions(&vec![7, 9, 8], &vec![8, 7]), vec![1, 0]);
}

// ─── Pagination ─────────────────────────────────────────────────────────

#[test]
fn pagination_windows() {
    let w = page_window(PaginationParams { page: None, per_page: None }, 20, 100);
    assert_eq!((w.page, w.per_page, w.offset), (1, 20, 0));
    let w = page_window(PaginationParams { page: Some(3), per_page: Some(500) }, 20, 100);
    assert_eq!((w.page, w.per_page, w.offset), (3, 100, 200));
    assert_eq!(total_pages(0, 20), 0);
    assert_eq!(total_pages(41, 20), 3);
    assert_eq!(total_pages(40, 20), 2);
}

#[test]
fn search_params_give_window_and_text() {
    let params = SearchParams { q: "  love ".to_string(), page: Some(2), per_page: Some(25) };
    let w = params.window();
    assert_eq!((w.limit, w.page, w.offset), (25, 2, 25));
    assert_eq!(params.text(), Some("love".to_string()));
    let blank = SearchParams { q: "   ".to_string(), page: None, per_page: None };
    let w = blank.window();
    assert_eq!((w.limit, w.page, w.offset), (10, 1, 0));
    assert_eq!(blank.text(), None);
}

#[test]
fn search_results_total_counts_every_list() {
    let r: SearchResults<u32, u32, u32> = SearchResults::new(vec![1, 2], vec![3], vec![4, 5, 6]);
    assert_eq!(r.total, 6);
    assert_eq!(r.artists, vec![4, 5, 6]);
    let e: SearchResults<u32, u32, u32> = SearchResults::empty();
    assert_eq!(e.total, 0);
    assert!(e.tracks.is_empty() && e.albums.is_empty() && e.artists.is_empty());
}

#[test]
fn only_uploader_or_admin_changes_cover() {
    assert!(may_change_cover(true, false).is_ok());
    assert!(may_change_cover(false, true).is_ok());
    assert_eq!(
        may_change_cover(false, false).unwrap_err(),
        (403, "Only the uploader or an admin can change album cover")
    );
}

#[test]
fn p2p_stream_refusals_in_order() {
    let r = p2p_stream_refusal(false, Some(false), false, false).unwrap();
    assert_eq!((r.status(), r.message()), (503, "P2P node not available"));
    let r = p2p_stream_refusal(true, Some(false), false, false).unwrap();
    assert_eq!((r.status(), r.message()), (410, "P2P track is no longer available"));
    let r = p2p_stream_refusal(true, Some(true), false, true).unwrap();
    assert_eq!((r.status(), r.message()), (400, "Invalid P2P hash"));
    let r = p2p_stream_refusal(true, None, true, false).unwrap();
    assert_eq!((r.status(), r.message()), (404, "P2P track data not available"));
    assert_eq!(r, P2pStreamRefusal::DataUnavailable);
    assert_eq!(p2p_stream_refusal(true, None, true, true), None);
    assert_eq!(p2p_stream_refusal(true, Some(true), true, true), None);
}

#[test]
fn streams_plan_or_refuse_ranges() {
    assert!(plan_stream(None, 0).is_none());
    assert!(plan_stream(Some((0, None)), 0).is_none());
    assert!(plan_stream(Some((10, None)), 5).is_none());
    assert!(plan_stream(Some((8, Some(3))), 100).is_none());
    let w = plan_stream(Some((0, Some(1000))), 100).unwrap();
    assert_eq!((w.start, w.end, w.length, w.partial), (0, 99, 100, true));
    let w = plan_stream(None, 10).unwrap();
    assert_eq!((w.start, w.end, w.length, w.partial), (0, 9, 10, false));
    let w = plan_stream(Some((4, None)), 10).unwrap();
    assert_eq!((w.start, w.end, w.length), (4, 9, 6));
}

#[test]
fn media_files_are_served_only_under_the_root() {
    assert!(media_file_servable("/data/media/u/a.mp3", "/data/media", true));
    assert!(!media_file_servable("/data/media/u/a.mp3", "/data/media", false));
    assert!(!media_file_servable("/etc/passwd", "/data/media", true));
    assert!(!media_file_servable("/data/media2/a.mp3", "/data/media", true));
}

#[test]
fn radio_batch_is_exhausted_only_when_empty() {
    let r = RadioNextResponse::of_batch(vec![1u128, 2]);
    assert!(!r.exhausted);
    assert_eq!(r.tracks, vec![1, 2]);
    let r = RadioNextResponse::<u128>::of_batch(vec![]);
    assert!(r.exhausted);
}
