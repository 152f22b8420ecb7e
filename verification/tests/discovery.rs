use artifice::discovery::{
    classify_embed, Attachment, Embed, EmbedKind, Fault, Message, Request, Search, PAGE_SIZE,
    READ_LIMIT,
};
use artifice::media_helpers::MediaType;

fn plain(id: u64) -> Message {
    Message { id, attachments: Vec::new(), embeds: Vec::new() }
}

fn with_attachment(id: u64, content_type: &str, url: &str) -> Message {
    Message {
        id,
        attachments: vec![Attachment {
            content_type: Some(content_type.to_string()),
            url: url.to_string(),
        }],
        embeds: Vec::new(),
    }
}

fn embed(kind: &str, url: &str) -> Embed {
    Embed { kind: Some(kind.to_string()), url: Some(url.to_string()) }
}

fn with_embeds(id: u64, embeds: Vec<Embed>) -> Message {
    Message { id, attachments: Vec::new(), embeds }
}

fn found(request: Request) -> (String, MediaType) {
    match request {
        Request::Finish(Some(lead)) => (lead.url, lead.media_type),
        _ => panic!("the search did not find anything"),
    }
}

fn is_messages(request: &Request, before: u64) -> bool {
    matches!(request, Request::Messages { before: b, limit } if *b == before && *limit == PAGE_SIZE)
}

fn is_page(request: &Request, url: &str) -> bool {
    matches!(request, Request::Page { url: u } if u == url)
}

#[test]
fn search_opens_with_the_messages_before_the_request() {
    assert_eq!(PAGE_SIZE, 5);
    assert_eq!(READ_LIMIT, 50);
    let (search, request) = Search::begin(900);
    assert!(is_messages(&request, 900));
    assert!(!search.is_over());
}

#[test]
fn single_attachment_settles_the_search() {
    let (mut search, _) = Search::begin(900);
    let request = search.on_messages(vec![
        plain(899),
        with_attachment(898, "image/png", "https://cdn/cat.png"),
        with_attachment(897, "video/mp4", "https://cdn/clip.mp4"),
    ]);
    assert_eq!(found(request), ("https://cdn/cat.png".to_string(), MediaType::Image));
    assert!(search.is_over());
}

#[test]
fn attachment_kinds_are_read_off_the_content_type() {
    for (content_type, kind) in [
        ("image/gif", MediaType::Gif),
        ("video/webm", MediaType::Video),
        ("audio/mpeg", MediaType::Audio),
    ] {
        let (mut search, _) = Search::begin(1);
        let request = search.on_messages(vec![with_attachment(0, content_type, "u")]);
        assert_eq!(found(request), ("u".to_string(), kind));
    }
}

#[test]
fn unusable_attachment_is_passed_over_with_its_embeds() {
    let (mut search, _) = Search::begin(900);
    let mut odd = with_attachment(899, "text/plain", "https://cdn/notes.txt");
    odd.embeds.push(embed("image", "https://cdn/ignored.png"));
    let request = search.on_messages(vec![odd, with_embeds(898, vec![embed("video", "v")])]);
    assert_eq!(found(request), ("v".to_string(), MediaType::Video));
}

#[test]
fn two_attachments_do_not_count() {
    let (mut search, _) = Search::begin(900);
    let mut double = with_attachment(899, "image/png", "one");
    double.attachments.push(Attachment {
        content_type: Some("image/png".to_string()),
        url: "two".to_string(),
    });
    let request = search.on_messages(vec![double, plain(898)]);
    assert!(is_messages(&request, 898));
}

#[test]
fn last_embedded_picture_or_video_wins() {
    let (mut search, _) = Search::begin(900);
    let request = search.on_messages(vec![with_embeds(
        899,
        vec![
            embed("image", "first.png"),
            embed("article", "story"),
            Embed { kind: None, url: None },
            embed("video", "second.mp4"),
            Embed { kind: Some("link".to_string()), url: None },
        ],
    )]);
    assert_eq!(found(request), ("second.mp4".to_string(), MediaType::Video));
}

#[test]
fn page_without_media_turns_to_older_messages() {
    let (mut search, _) = Search::begin(900);
    let request = search.on_messages(vec![plain(899), plain(898), plain(890)]);
    assert!(is_messages(&request, 890));
    assert!(!search.is_over());
    let request = search.on_messages(vec![with_embeds(880, vec![embed("image", "i")])]);
    assert_eq!(found(request), ("i".to_string(), MediaType::Image));
}

#[test]
fn search_gives_up_after_the_read_limit() {
    let (mut search, mut request) = Search::begin(10_000);
    let mut pages = 0;
    let mut before = 10_000;
    loop {
        match request {
            Request::Messages { before: asked, limit } => {
                assert_eq!(asked, before);
                assert_eq!(limit, 5);
                pages += 1;
                let page: Vec<Message> = (1..=5).map(|k| plain(before - k)).collect();
                before -= 5;
                request = search.on_messages(page);
            }
            Request::Finish(None) => break,
            _ => panic!("unexpected request"),
        }
    }
    assert_eq!(pages, 10);
    assert!(search.is_over());
}

#[test]
fn empty_page_breaks_the_search_off() {
    let (mut search, _) = Search::begin(900);
    let request = search.on_messages(Vec::new());
    assert!(matches!(request, Request::Abort(Fault::EmptyPage)));
    assert!(search.is_over());
}

#[test]
fn missing_fields_break_the_search_off() {
    let (mut search, _) = Search::begin(900);
    let request = search.on_messages(vec![Message {
        id: 1,
        attachments: vec![Attachment { content_type: None, url: "u".to_string() }],
        embeds: Vec::new(),
    }]);
    assert!(matches!(request, Request::Abort(Fault::Malformed)));

    for kind in ["image", "video", "gifv"] {
        let (mut search, _) = Search::begin(900);
        let request = search.on_messages(vec![with_embeds(
            1,
            vec![Embed { kind: Some(kind.to_string()), url: None }],
        )]);
        assert!(matches!(request, Request::Abort(Fault::Malformed)));
        assert!(search.is_over());
    }
}

#[test]
fn media_before_a_malformed_message_is_still_found() {
    let (mut search, _) = Search::begin(900);
    let request = search.on_messages(vec![
        with_attachment(5, "image/png", "good"),
        with_embeds(4, vec![Embed { kind: Some("image".to_string()), url: None }]),
    ]);
    assert_eq!(found(request), ("good".to_string(), MediaType::Image));
}

#[test]
fn embedded_animation_is_read_from_its_page() {
    let (mut search, _) = Search::begin(900);
    let request = search.on_messages(vec![with_embeds(
        899,
        vec![embed("gifv", "https://tenor.example/view/cat")],
    )]);
    assert!(is_page(&request, "https://tenor.example/view/cat"));
    let request = search.on_chunk(b"<html><head><title>cat</title>");
    assert!(matches!(request, Request::Chunk));
    let request = search.on_chunk(
        b"<meta itemProp=\"contentUrl\" content=\"https://media.example/cat.gif\"><meta",
    );
    assert_eq!(found(request), ("https://media.example/cat.gif".to_string(), MediaType::Gif));
    assert!(search.is_over());
}

#[test]
fn address_split_over_two_pieces_is_put_together() {
    let (mut search, _) = Search::begin(900);
    let request = search.on_messages(vec![with_embeds(1, vec![embed("gifv", "page")])]);
    assert!(is_page(&request, "page"));
    assert!(matches!(
        search.on_chunk(b"..<meta itemProp=\"contentUrl\" content=\"https://media.exam"),
        Request::Chunk
    ));
    let request = search.on_chunk(b"ple/dog.gif\">..");
    assert_eq!(found(request), ("https://media.example/dog.gif".to_string(), MediaType::Gif));
}

#[test]
fn escaped_slashes_are_read_as_slashes() {
    let (mut search, _) = Search::begin(900);
    let request = search.on_messages(vec![with_embeds(1, vec![embed("gifv", "page")])]);
    assert!(is_page(&request, "page"));
    let request = search.on_chunk(
        b"<meta itemProp=\"contentUrl\" content=\"https:\\u002F\\u002Fmedia.example\\u002Fa.gif\">",
    );
    assert_eq!(found(request), ("https://media.example/a.gif".to_string(), MediaType::Gif));
}

#[test]
fn bytes_that_are_no_text_do_not_stop_the_reading() {
    let (mut search, _) = Search::begin(900);
    let request = search.on_messages(vec![with_embeds(1, vec![embed("gifv", "page")])]);
    assert!(is_page(&request, "page"));
    let mut piece = vec![0xff, 0xfe, b'x'];
    piece.extend_from_slice(b"<meta itemProp=\"contentUrl\" content=\"g\xff.gif\">");
    let request = search.on_chunk(&piece);
    assert_eq!(found(request), ("g\u{fffd}.gif".to_string(), MediaType::Gif));
}

#[test]
fn page_without_address_falls_back_on_what_the_message_showed() {
    let (mut search, _) = Search::begin(900);
    let request = search.on_messages(vec![with_embeds(
        1,
        vec![embed("image", "still.png"), embed("gifv", "page")],
    )]);
    assert!(is_page(&request, "page"));
    assert!(matches!(search.on_chunk(b"<html>nothing here</html>"), Request::Chunk));
    let request = search.on_end();
    assert_eq!(found(request), ("still.png".to_string(), MediaType::Image));
}

#[test]
fn embeds_behind_an_animation_are_still_looked_at() {
    let (mut search, _) = Search::begin(900);
    let request = search.on_messages(vec![with_embeds(
        1,
        vec![embed("gifv", "page"), embed("video", "later.mp4")],
    )]);
    assert!(is_page(&request, "page"));
    let request =
        search.on_chunk(b"<meta itemProp=\"contentUrl\" content=\"https://m/a.gif\">");
    assert_eq!(found(request), ("later.mp4".to_string(), MediaType::Video));
}

#[test]
fn page_without_address_and_nothing_else_goes_on_with_the_search() {
    let (mut search, _) = Search::begin(900);
    let request = search.on_messages(vec![
        with_embeds(20, vec![embed("gifv", "first page")]),
        with_embeds(10, vec![embed("gifv", "second page")]),
        plain(5),
    ]);
    assert!(is_page(&request, "first page"));
    let request = search.on_end();
    assert!(is_page(&request, "second page"));
    let request = search.on_end();
    assert!(is_messages(&request, 5));
}

#[test]
fn events_out_of_turn_are_refused() {
    let (mut search, _) = Search::begin(900);
    assert!(matches!(search.on_chunk(b"abc"), Request::Abort(Fault::OutOfTurn)));
    assert!(matches!(search.on_end(), Request::Abort(Fault::OutOfTurn)));
    assert!(!search.is_over());
    let request = search.on_messages(vec![with_embeds(1, vec![embed("gifv", "page")])]);
    assert!(is_page(&request, "page"));
    assert!(matches!(search.on_messages(vec![plain(1)]), Request::Abort(Fault::OutOfTurn)));
    let request = search.on_messages(Vec::new());
    assert!(matches!(request, Request::Abort(Fault::OutOfTurn)));
    assert!(!search.is_over());
    let request = search.on_end();
    assert!(is_messages(&request, 1));
}

#[test]
fn finished_search_takes_nothing_more() {
    let (mut search, _) = Search::begin(900);
    let request = search.on_messages(vec![with_attachment(1, "image/png", "u")]);
    assert_eq!(found(request), ("u".to_string(), MediaType::Image));
    assert!(matches!(search.on_messages(vec![plain(1)]), Request::Abort(Fault::OutOfTurn)));
    assert!(matches!(search.on_chunk(b""), Request::Abort(Fault::OutOfTurn)));
    assert!(matches!(search.on_end(), Request::Abort(Fault::OutOfTurn)));
}

#[test]
fn embed_kinds() {
    assert_eq!(classify_embed("image"), EmbedKind::Image);
    assert_eq!(classify_embed("video"), EmbedKind::Video);
    assert_eq!(classify_embed("gifv"), EmbedKind::Gifv);
    assert_eq!(classify_embed("rich"), EmbedKind::Other);
    assert_eq!(classify_embed("Image"), EmbedKind::Other);
    assert_eq!(classify_embed(""), EmbedKind::Other);
}
