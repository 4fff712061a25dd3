use telemap::config::FilterConf;
use telemap::data::DataHub;
use telemap::filter::FilterType;
use telemap::message::{FileRef, InboundMessage, MessageContent};
use telemap::moderation::NoModeration;

enum MessageMock {
    Photo(Option<String>, i64),
    Document(Option<String>, i64),
    Video(Option<String>, i32, i64),
    Animation(Option<String>, i32, i64),
    Text(Option<String>),
}

fn formatted_text_example(text: Option<String>) -> String {
    text.unwrap_or("example".to_string())
}

fn file_example(size: i64) -> FileRef {
    FileRef { id: 1, expected_size: size }
}

fn content_example(mock: MessageMock) -> MessageContent {
    match mock {
        MessageMock::Photo(text, filesize) => MessageContent::Photo {
            first_size: Some(file_example(filesize)),
            caption: formatted_text_example(text),
        },
        MessageMock::Document(text, filesize) => MessageContent::Document {
            document: file_example(filesize),
            mime_type: String::new(),
            caption: formatted_text_example(text),
        },
        MessageMock::Video(text, duration, filesize) => MessageContent::Video {
            video: file_example(filesize),
            duration,
            caption: formatted_text_example(text),
        },
        MessageMock::Animation(text, duration, filesize) => MessageContent::Animation {
            animation: file_example(filesize),
            duration,
            caption: formatted_text_example(text),
        },
        MessageMock::Text(text) => MessageContent::Text { text: formatted_text_example(text) },
    }
}

fn message_example(content: MessageMock, outgoing: bool) -> InboundMessage {
    InboundMessage { chat_id: 1, is_outgoing: outgoing, content: content_example(content) }
}

#[test]
fn test_incoming() {
    let outgoing_data = DataHub::new(message_example(MessageMock::Text(None), true));
    let incoming_data = DataHub::new(message_example(MessageMock::Text(None), false));

    let mut filter = FilterType::from(FilterConf::Incoming);
    let mut moderator = NoModeration;

    assert_eq!(Ok(()), filter.filter(&incoming_data, &mut moderator));
    assert_eq!(Err(()), filter.filter(&outgoing_data, &mut moderator));
}

#[test]
fn test_counter() {
    let data = DataHub::new(message_example(MessageMock::Text(None), false));

    // This will pass only third message, first two must be ignored
    let mut filter = FilterType::from(FilterConf::Counter { count: 2 });
    let mut moderator = NoModeration;

    assert_eq!(Err(()), filter.filter(&data, &mut moderator));
    assert_eq!(Err(()), filter.filter(&data, &mut moderator));
    assert_eq!(Ok(()), filter.filter(&data, &mut moderator));
}

#[test]
fn counter_cycles_after_pass() {
    let data = DataHub::new(message_example(MessageMock::Text(None), false));
    let mut filter = FilterType::from(FilterConf::Counter { count: 1 });
    let mut moderator = NoModeration;

    assert_eq!(Err(()), filter.filter(&data, &mut moderator));
    assert_eq!(Ok(()), filter.filter(&data, &mut moderator));
    assert_eq!(Err(()), filter.filter(&data, &mut moderator));
    assert_eq!(Ok(()), filter.filter(&data, &mut moderator));
}

#[test]
fn counter_zero_passes_every_message() {
    let data = DataHub::new(message_example(MessageMock::Text(None), false));
    let mut filter = FilterType::from(FilterConf::Counter { count: 0 });
    let mut moderator = NoModeration;

    assert_eq!(Ok(()), filter.filter(&data, &mut moderator));
    assert_eq!(Ok(()), filter.filter(&data, &mut moderator));
}

#[test]
fn test_duration() {
    // 10 seconds
    let animation = DataHub::new(message_example(MessageMock::Video(None, 10, 0), false));
    // 1 minute
    let video = DataHub::new(message_example(MessageMock::Video(None, 60, 0), false));

    let mut ten_seconds_filter = FilterType::from(FilterConf::Duration {
        duration: 10,
        op: "<=".to_string(),
    });
    let mut minute_filter = FilterType::from(FilterConf::Duration {
        duration: 60,
        op: ">=".to_string(),
    });
    let mut moderator = NoModeration;

    assert_eq!(Ok(()), ten_seconds_filter.filter(&animation, &mut moderator));
    assert_eq!(Err(()), ten_seconds_filter.filter(&video, &mut moderator));

    assert_eq!(Ok(()), minute_filter.filter(&video, &mut moderator));
    assert_eq!(Err(()), minute_filter.filter(&animation, &mut moderator));
}

#[test]
fn test_file_size() {
    // 10mb video
    let video = DataHub::new(message_example(MessageMock::Video(None, 10, 10 * 1000 * 1000), false));
    // 1mb photo
    let photo = DataHub::new(message_example(MessageMock::Photo(None, 1 * 1000 * 1000), false));
    // 20mb document
    let document = DataHub::new(message_example(
        MessageMock::Document(None, 20 * 1000 * 1000),
        false,
    ));

    // The size threshold is in bytes: 10 megabytes.
    let mut filter = FilterType::from(FilterConf::FileSize {
        size: 10 * 1000 * 1000,
        op: ">=".to_string(),
    });
    let mut moderator = NoModeration;

    assert_eq!(Ok(()), filter.filter(&video, &mut moderator));
    assert_eq!(Err(()), filter.filter(&photo, &mut moderator));
    assert_eq!(Ok(()), filter.filter(&document, &mut moderator));
}

#[test]
fn test_text_length() {
    // 19 symbols
    let long_message_data = DataHub::new(message_example(
        MessageMock::Text(Some("loong loong message".to_string())),
        false,
    ));
    // 5 symbols
    let short_message_data = DataHub::new(message_example(
        MessageMock::Text(Some("short".to_string())),
        false,
    ));

    let mut less_filter = FilterType::from(FilterConf::TextLength {
        len: 10,
        op: "<".to_string(),
    });
    let mut eq_filter = FilterType::from(FilterConf::TextLength { len: 5, op: "=".to_string() });
    let mut greater_filter = FilterType::from(FilterConf::TextLength {
        len: 6,
        op: ">".to_string(),
    });
    let mut moderator = NoModeration;

    // Shorter than 10 symbols
    assert_eq!(Ok(()), less_filter.filter(&short_message_data, &mut moderator));
    assert_eq!(Err(()), less_filter.filter(&long_message_data, &mut moderator));

    // Equals to 5 symbols
    assert_eq!(Ok(()), eq_filter.filter(&short_message_data, &mut moderator));
    assert_eq!(Err(()), eq_filter.filter(&long_message_data, &mut moderator));

    // Greater than 5 symbols
    assert_eq!(Ok(()), greater_filter.filter(&long_message_data, &mut moderator));
    assert_eq!(Err(()), greater_filter.filter(&short_message_data, &mut moderator));
}

#[test]
fn unknown_operator_never_passes() {
    let data = DataHub::new(message_example(MessageMock::Text(Some("short".to_string())), false));
    let mut filter = FilterType::from(FilterConf::TextLength { len: 5, op: "~".to_string() });
    let mut moderator = NoModeration;

    assert_eq!(Err(()), filter.filter(&data, &mut moderator));
}

#[test]
fn test_regexp() {
    let example_message_data = DataHub::new(message_example(
        MessageMock::Text(Some("example".to_string())),
        false,
    ));
    let number_message_data = DataHub::new(message_example(
        MessageMock::Text(Some("123".to_string())),
        false,
    ));

    let mut example_filter = FilterType::from(FilterConf::Regexp {
        exp: "^example$".to_string(),
    });
    let mut number_filter = FilterType::from(FilterConf::Regexp {
        exp: "^[0-9]+$".to_string(),
    });
    let mut moderator = NoModeration;

    assert_eq!(Ok(()), example_filter.filter(&example_message_data, &mut moderator));
    assert_eq!(Err(()), example_filter.filter(&number_message_data, &mut moderator));

    assert_eq!(Ok(()), number_filter.filter(&number_message_data, &mut moderator));
    assert_eq!(Err(()), number_filter.filter(&example_message_data, &mut moderator));
}

#[test]
fn regexp_that_does_not_compile_rejects() {
    let data = DataHub::new(message_example(MessageMock::Text(Some("abc".to_string())), false));
    let mut filter = FilterType::from(FilterConf::Regexp { exp: "[".to_string() });
    let mut moderator = NoModeration;

    assert_eq!(Err(()), filter.filter(&data, &mut moderator));
}

#[test]
fn test_white_list() {
    let message_data1 = DataHub::new(message_example(
        MessageMock::Text(Some("hello".to_string())),
        false,
    ));
    let message_data2 = DataHub::new(message_example(
        MessageMock::Text(Some("world".to_string())),
        false,
    ));
    let message_data3 = DataHub::new(message_example(
        MessageMock::Text(Some("something else".to_string())),
        false,
    ));
    let mut filter = FilterType::from(FilterConf::WhiteList {
        words: vec!["hello".to_string(), "world".to_string()],
    });
    let mut moderator = NoModeration;

    assert_eq!(Ok(()), filter.filter(&message_data1, &mut moderator));
    assert_eq!(Ok(()), filter.filter(&message_data2, &mut moderator));
    assert_eq!(Err(()), filter.filter(&message_data3, &mut moderator));
}

#[test]
fn test_black_list() {
    let message_data1 = DataHub::new(message_example(
        MessageMock::Text(Some("hello".to_string())),
        false,
    ));
    let message_data2 = DataHub::new(message_example(
        MessageMock::Text(Some("world".to_string())),
        false,
    ));
    let message_data3 = DataHub::new(message_example(
        MessageMock::Text(Some("something else".to_string())),
        false,
    ));
    let mut filter = FilterType::from(FilterConf::BlackList {
        words: vec!["hello".to_string(), "world".to_string()],
    });
    let mut moderator = NoModeration;

    assert_eq!(Err(()), filter.filter(&message_data1, &mut moderator));
    assert_eq!(Err(()), filter.filter(&message_data2, &mut moderator));
    assert_eq!(Ok(()), filter.filter(&message_data3, &mut moderator));
}

#[test]
fn word_list_matching_ignores_case() {
    let data = DataHub::new(message_example(
        MessageMock::Text(Some("HeLLo WoRld".to_string())),
        false,
    ));
    let mut filter = FilterType::from(FilterConf::WhiteList {
        words: vec!["hello".to_string()],
    });
    let mut moderator = NoModeration;

    assert_eq!(Ok(()), filter.filter(&data, &mut moderator));
}

#[test]
fn test_unique() {
    let message_data = DataHub::new(message_example(
        MessageMock::Text(Some("some message".to_string())),
        false,
    ));

    let mut unique_filter = FilterType::from(FilterConf::Unique);
    let mut moderator = NoModeration;

    let _ = unique_filter.filter(&message_data, &mut moderator);
    // Second time should not pass
    assert_eq!(Err(()), unique_filter.filter(&message_data, &mut moderator));
}

#[test]
fn test_file() {
    let success_data = vec![
        DataHub::new(message_example(MessageMock::Video(None, 0, 0), false)),
        DataHub::new(message_example(MessageMock::Document(None, 0), false)),
        DataHub::new(message_example(MessageMock::Photo(None, 0), false)),
        DataHub::new(message_example(MessageMock::Animation(None, 0, 0), false)),
    ];
    let fail_data = DataHub::new(message_example(MessageMock::Text(None), false));

    let mut filter = FilterType::from(FilterConf::AnyFile);
    let mut moderator = NoModeration;

    for datum in &success_data {
        assert_eq!(Ok(()), filter.filter(datum, &mut moderator));
    }

    assert_eq!(Err(()), filter.filter(&fail_data, &mut moderator));
}

#[test]
fn test_animation() {
    let success_data = DataHub::new(message_example(MessageMock::Animation(None, 0, 0), false));
    let fail_data = DataHub::new(message_example(MessageMock::Text(None), false));
    let mut filter = FilterType::from(FilterConf::Animation);
    let mut moderator = NoModeration;

    assert_eq!(Ok(()), filter.filter(&success_data, &mut moderator));
    assert_eq!(Err(()), filter.filter(&fail_data, &mut moderator));
}

#[test]
fn animation_accepts_gif_document() {
    let gif = DataHub::new(InboundMessage {
        chat_id: 1,
        is_outgoing: false,
        content: MessageContent::Document {
            document: file_example(0),
            mime_type: "image/gif".to_string(),
            caption: String::new(),
        },
    });
    let mut filter = FilterType::from(FilterConf::Animation);
    let mut moderator = NoModeration;

    assert_eq!(Ok(()), filter.filter(&gif, &mut moderator));
}

#[test]
fn test_video() {
    let success_data = DataHub::new(message_example(MessageMock::Video(None, 0, 0), false));
    let fail_data = DataHub::new(message_example(MessageMock::Text(None), false));
    let mut filter = FilterType::from(FilterConf::Video);
    let mut moderator = NoModeration;

    assert_eq!(Ok(()), filter.filter(&success_data, &mut moderator));
    assert_eq!(Err(()), filter.filter(&fail_data, &mut moderator));
}

#[test]
fn test_document() {
    let success_data = DataHub::new(message_example(MessageMock::Document(None, 0), false));
    let fail_data = DataHub::new(message_example(MessageMock::Text(None), false));
    let mut filter = FilterType::from(FilterConf::Document);
    let mut moderator = NoModeration;

    assert_eq!(Ok(()), filter.filter(&success_data, &mut moderator));
    assert_eq!(Err(()), filter.filter(&fail_data, &mut moderator));
}

#[test]
fn test_photo() {
    let success_data = DataHub::new(message_example(MessageMock::Photo(None, 0), false));
    let fail_data = DataHub::new(message_example(MessageMock::Text(None), false));
    let mut filter = FilterType::from(FilterConf::Photo);
    let mut moderator = NoModeration;

    assert_eq!(Ok(()), filter.filter(&success_data, &mut moderator));
    assert_eq!(Err(()), filter.filter(&fail_data, &mut moderator));
}

#[test]
fn test_text() {
    let success_data = DataHub::new(message_example(MessageMock::Text(None), false));
    let fail_data = DataHub::new(message_example(MessageMock::Photo(None, 0), false));
    let mut filter = FilterType::from(FilterConf::Text);
    let mut moderator = NoModeration;

    assert_eq!(Ok(()), filter.filter(&success_data, &mut moderator));
    assert_eq!(Err(()), filter.filter(&fail_data, &mut moderator));
}

#[test]
fn empty_white_list_rejects_everything() {
    let data = DataHub::new(message_example(MessageMock::Text(Some("anything".to_string())), false));
    let mut filter = FilterType::from(FilterConf::WhiteList { words: vec![] });
    let mut moderator = NoModeration;

    assert_eq!(Err(()), filter.filter(&data, &mut moderator));
}

#[test]
fn empty_black_list_passes_everything() {
    let data = DataHub::new(message_example(MessageMock::Text(Some("anything".to_string())), false));
    let mut filter = FilterType::from(FilterConf::BlackList { words: vec![] });
    let mut moderator = NoModeration;

    assert_eq!(Ok(()), filter.filter(&data, &mut moderator));
}

#[test]
fn pattern_filter_reads_a_media_caption() {
    let photo = DataHub::new(message_example(MessageMock::Photo(Some("number 42".to_string()), 0), false));
    let mut filter = FilterType::from(FilterConf::Regexp { exp: "[0-9]+".to_string() });
    let mut moderator = NoModeration;

    assert_eq!(Ok(()), filter.filter(&photo, &mut moderator));
}

#[test]
fn text_filters_read_a_document_caption() {
    let doc = DataHub::new(message_example(
        MessageMock::Document(Some("forbidden word".to_string()), 0),
        false,
    ));
    let mut black_list = FilterType::from(FilterConf::BlackList {
        words: vec!["forbidden".to_string()],
    });
    let mut length = FilterType::from(FilterConf::TextLength { len: 5, op: ">".to_string() });
    let mut moderator = NoModeration;

    assert_eq!(Err(()), black_list.filter(&doc, &mut moderator));
    assert_eq!(Ok(()), length.filter(&doc, &mut moderator));
}
