use telemap::config::PipeConf;
use telemap::data::DataHub;
use telemap::message::{FileRef, InboundMessage, MessageContent, OutboundContent};
use telemap::pipe::PipeType;

fn formatted_text_example(text: Option<String>) -> String {
    text.unwrap_or("example".to_string())
}

fn text_message_example(text: Option<String>) -> InboundMessage {
    InboundMessage {
        chat_id: 1,
        is_outgoing: false,
        content: MessageContent::Text { text: formatted_text_example(text) },
    }
}

fn transformed_data_example(message: Option<String>) -> DataHub {
    let mut data = DataHub::new(text_message_example(message));
    let pipe = PipeType::from(PipeConf::Transform);
    pipe.handle(&mut data);
    data
}

#[test]
fn test_transform() {
    let data = transformed_data_example(None);

    assert!(data.output.is_some());
}

#[test]
fn test_replace() {
    let mut data = transformed_data_example(Some("Search Search".to_string()));
    let success_text = formatted_text_example(Some("Replaced Replaced".to_string()));
    let pipe = PipeType::from(PipeConf::Replace {
        search: vec!["Search".to_string()],
        replace: "Replaced".to_string(),
    });

    pipe.handle(&mut data);

    let data_text = match data.output {
        Some(OutboundContent::Text { text }) => text,
        _ => formatted_text_example(None),
    };

    assert_eq!(data_text, success_text);
}

#[test]
fn test_replace_multiple() {
    let mut data = transformed_data_example(Some("Search1 Search2".to_string()));
    let success_text = formatted_text_example(Some("Replaced Replaced".to_string()));
    let pipe = PipeType::from(PipeConf::Replace {
        search: vec!["Search1".to_string(), "Search2".to_string()],
        replace: "Replaced".to_string(),
    });

    pipe.handle(&mut data);

    let data_text = match data.output {
        Some(OutboundContent::Text { text }) => text,
        _ => formatted_text_example(None),
    };

    assert_eq!(data_text, success_text);
}

#[test]
fn replace_of_absent_term_leaves_output_unchanged() {
    let mut data = transformed_data_example(Some("untouched text".to_string()));
    let pipe = PipeType::from(PipeConf::Replace {
        search: vec!["missing".to_string()],
        replace: "anything".to_string(),
    });

    pipe.handle(&mut data);

    let data_text = match data.output {
        Some(OutboundContent::Text { text }) => text,
        _ => formatted_text_example(None),
    };

    assert_eq!(data_text, "untouched text".to_string());
}

#[test]
fn test_replace_regexp_all() {
    let mut data = transformed_data_example(Some("World world word work".to_string()));
    let success_text = formatted_text_example(Some(
        "replaced replaced replaced replaced".to_string(),
    ));
    let pipe = PipeType::from(PipeConf::ReplaceRegexp {
        search: r"[wW]or\S+".to_string(),
        replace: "replaced".to_string(),
        all: true,
    });

    pipe.handle(&mut data);

    let data_text = match data.output {
        Some(OutboundContent::Text { text }) => text,
        _ => formatted_text_example(None),
    };

    assert_eq!(data_text, success_text);
}

#[test]
fn test_replace_regexp_first() {
    let mut data = transformed_data_example(Some("World world word work".to_string()));
    let success_text = formatted_text_example(Some("replaced world word work".to_string()));
    let pipe = PipeType::from(PipeConf::ReplaceRegexp {
        search: r"[wW]or\S+".to_string(),
        replace: "replaced".to_string(),
        all: false,
    });

    pipe.handle(&mut data);

    let data_text = match data.output {
        Some(OutboundContent::Text { text }) => text,
        _ => formatted_text_example(None),
    };

    assert_eq!(data_text, success_text);
}

#[test]
fn test_format() {
    let mut data = transformed_data_example(Some("Original message".to_string()));
    let success_text = formatted_text_example(Some("Start `Original message` End".to_string()));
    let pipe = PipeType::from(PipeConf::Format {
        template: "Start `{message}` End".to_string(),
    });

    pipe.handle(&mut data);

    let data_text = match data.output {
        Some(OutboundContent::Text { text }) => text,
        _ => formatted_text_example(None),
    };

    assert_eq!(data_text, success_text);
}

#[test]
fn static_text_test_static_text() {
    let mut data = transformed_data_example(None);
    let success_formatted_text = formatted_text_example(Some("Test Text".to_string()));
    let pipe = PipeType::from(PipeConf::StaticText {
        text: success_formatted_text.clone(),
    });
    pipe.handle(&mut data);

    let data_text = match data.output {
        Some(OutboundContent::Text { text }) => text,
        _ => formatted_text_example(None),
    };

    assert_eq!(success_formatted_text, data_text);
}

#[test]
fn statics_test_static_text() {
    let mut data = transformed_data_example(None);
    let success_formatted_text = formatted_text_example(Some("Test Text".to_string()));
    let pipe = PipeType::from(PipeConf::StaticText {
        text: success_formatted_text.clone(),
    });
    pipe.handle(&mut data);

    let data_text = match data.output {
        Some(OutboundContent::Text { text }) => text,
        _ => formatted_text_example(None),
    };

    assert_eq!(success_formatted_text, data_text);
}

#[test]
fn test_static_photo() {
    let mut data = transformed_data_example(Some("Something".to_string()));
    let success_formatted_text = formatted_text_example(Some("Something".to_string()));
    let pipe = PipeType::from(PipeConf::StaticPhoto {
        path: "resources/photo.jpg".to_string(),
    });
    pipe.handle(&mut data);

    let data_text = match data.output {
        Some(OutboundContent::Photo { caption, .. }) => caption,
        _ => formatted_text_example(None),
    };

    assert_eq!(success_formatted_text, data_text);
}

fn photo_message_example(caption: &str) -> InboundMessage {
    InboundMessage {
        chat_id: 1,
        is_outgoing: false,
        content: MessageContent::Photo {
            first_size: Some(FileRef { id: 7, expected_size: 100 }),
            caption: caption.to_string(),
        },
    }
}

#[test]
fn static_text_rewrites_a_media_caption() {
    let mut data = DataHub::new(photo_message_example("old caption"));
    PipeType::from(PipeConf::Transform).handle(&mut data);
    PipeType::from(PipeConf::StaticText { text: "new caption".to_string() }).handle(&mut data);

    match data.output {
        Some(OutboundContent::Photo { caption, .. }) => assert_eq!("new caption", caption),
        _ => panic!("the output must stay a photo with the new caption"),
    }
}

#[test]
fn replace_rewrites_a_media_caption() {
    let mut data = DataHub::new(photo_message_example("the foo caption"));
    PipeType::from(PipeConf::Transform).handle(&mut data);
    PipeType::from(PipeConf::Replace {
        search: vec!["foo".to_string()],
        replace: "bar".to_string(),
    })
    .handle(&mut data);

    match data.output {
        Some(OutboundContent::Photo { caption, .. }) => assert_eq!("the bar caption", caption),
        _ => panic!("the output must stay a photo with the rewritten caption"),
    }
}

#[test]
fn replace_regexp_with_a_bad_pattern_does_nothing() {
    let mut data = transformed_data_example(Some("unchanged".to_string()));
    PipeType::from(PipeConf::ReplaceRegexp {
        search: "[".to_string(),
        replace: "anything".to_string(),
        all: true,
    })
    .handle(&mut data);

    match data.output {
        Some(OutboundContent::Text { text }) => assert_eq!("unchanged", text),
        _ => panic!("a pattern that does not compile must leave the output alone"),
    }
}

#[test]
fn pipes_without_output_do_nothing() {
    let mut data = DataHub::new(text_message_example(Some("ignored".to_string())));
    // No transform ran, so there is no output for these pipes to act on.
    PipeType::from(PipeConf::StaticText { text: "anything".to_string() }).handle(&mut data);
    PipeType::from(PipeConf::StaticPhoto { path: "p.jpg".to_string() }).handle(&mut data);
    PipeType::from(PipeConf::Replace { search: vec!["a".to_string()], replace: "b".to_string() })
        .handle(&mut data);

    assert!(data.output.is_none());
}

fn document_message_example(caption: &str) -> InboundMessage {
    InboundMessage {
        chat_id: 1,
        is_outgoing: false,
        content: MessageContent::Document {
            document: FileRef { id: 9, expected_size: 100 },
            mime_type: "application/pdf".to_string(),
            caption: caption.to_string(),
        },
    }
}

#[test]
fn static_text_rewrites_a_document_caption() {
    let mut data = DataHub::new(document_message_example("old caption"));
    PipeType::from(PipeConf::Transform).handle(&mut data);
    PipeType::from(PipeConf::StaticText { text: "new caption".to_string() }).handle(&mut data);

    match data.output {
        Some(OutboundContent::Document { caption, .. }) => assert_eq!("new caption", caption),
        _ => panic!("the output must stay a document with the new caption"),
    }
}

#[test]
fn replace_rewrites_a_document_caption() {
    let mut data = DataHub::new(document_message_example("a foo caption"));
    PipeType::from(PipeConf::Transform).handle(&mut data);
    PipeType::from(PipeConf::Replace {
        search: vec!["foo".to_string()],
        replace: "bar".to_string(),
    })
    .handle(&mut data);

    match data.output {
        Some(OutboundContent::Document { caption, .. }) => assert_eq!("a bar caption", caption),
        _ => panic!("the output must stay a document with the rewritten caption"),
    }
}
