use telemap::config::{FilterConf, IdMapConf, PipeConf, PipelineConf, RouteConf};
use telemap::message::{InboundMessage, MessageContent, OutboundContent};
use telemap::moderation::{ModerationReply, NoModeration};
use telemap::pipeline::{Pipeline, PipelineError};
use telemap::routing::{dispatch_message, MappingsIndex, PipelinesIndex};
use telemap::data::DataHub;
use telemap::filter::FilterType;
use telemap::filters::ai::Context;
use telemap::filters::openai::OpenAi;

fn text_message(chat_id: i64, text: &str, outgoing: bool) -> InboundMessage {
    InboundMessage {
        chat_id,
        is_outgoing: outgoing,
        content: MessageContent::Text { text: text.to_string() },
    }
}

#[test]
fn test_default() {
    // This must map any incoming message as it is
    let mut pipeline = Pipeline::default();
    let mut moderator = NoModeration;
    let success_message = text_message(1, "example", false);
    let fail_message = text_message(1, "example", true);
    assert!(pipeline.handle(success_message, &mut moderator).is_ok());
    assert!(pipeline.handle(fail_message, &mut moderator).is_err());
}

#[test]
fn rejection_names_the_filter() {
    let mut pipeline = Pipeline::default();
    let mut moderator = NoModeration;
    let outgoing = text_message(1, "example", true);
    match pipeline.handle(outgoing, &mut moderator) {
        Err(PipelineError::FilterError(name)) => assert_eq!("Incoming", name),
        _ => panic!("the incoming filter must reject a self-sent message"),
    }
}

#[test]
fn missing_output_names_the_pipeline() {
    let mut pipeline = Pipeline::from(PipelineConf {
        name: "quiet".to_string(),
        route: RouteConf::default(),
        filters: vec![],
        pipes: vec![],
    });
    let mut moderator = NoModeration;
    let unsupported = InboundMessage {
        chat_id: 1,
        is_outgoing: false,
        content: MessageContent::Other,
    };
    match pipeline.handle(unsupported, &mut moderator) {
        Err(PipelineError::OutputError(name)) => assert_eq!("quiet", name),
        _ => panic!("a pipeline without output must fail with the output error"),
    }
}

#[test]
fn text_length_filter_rejects_long_text() {
    // A pipeline demanding a text shorter than 5 rejects a text of length 6.
    let mut pipeline = Pipeline::from(PipelineConf {
        name: "short only".to_string(),
        route: RouteConf::default(),
        filters: vec![FilterConf::TextLength { len: 5, op: "<".to_string() }],
        pipes: vec![],
    });
    let mut moderator = NoModeration;
    let message = text_message(1, "sixsix", false);
    match pipeline.handle(message, &mut moderator) {
        Err(PipelineError::FilterError(name)) => assert_eq!("TextLength", name),
        _ => panic!("the text-length filter must reject"),
    }
}

#[test]
fn transform_and_replace_rewrite_the_text() {
    let mut pipeline = Pipeline::from(PipelineConf {
        name: "rewrite".to_string(),
        route: RouteConf::default(),
        filters: vec![],
        pipes: vec![
            PipeConf::Transform,
            PipeConf::Replace { search: vec!["foo".to_string()], replace: "bar".to_string() },
        ],
    });
    let mut moderator = NoModeration;
    let message = text_message(1, "foo baz", false);
    match pipeline.handle(message, &mut moderator) {
        Ok(OutboundContent::Text { text }) => assert_eq!("bar baz", text),
        _ => panic!("the pipeline must yield the rewritten text"),
    }
}

#[test]
fn dispatch_delivers_to_every_destination() {
    let mappings = MappingsIndex::from(vec![IdMapConf { source: 1, destinations: vec![10, 11] }]);
    let mut pipelines = PipelinesIndex::from(vec![]);
    let mut default_pipeline = Pipeline::default();
    let mut moderator = NoModeration;
    let message = text_message(1, "hello", false);

    let reports = dispatch_message(
        &mappings,
        &mut pipelines,
        &mut default_pipeline,
        &message,
        &mut moderator,
    );

    assert_eq!(2, reports.len());
    assert_eq!(10, reports[0].destination);
    assert_eq!(11, reports[1].destination);
    for report in &reports {
        assert_eq!(1, report.results.len());
        match &report.results[0] {
            Ok(OutboundContent::Text { text }) => assert_eq!("hello", text),
            _ => panic!("the default pipeline must forward the text as it is"),
        }
    }
}

#[test]
fn dispatch_ignores_an_unmapped_source() {
    let mappings = MappingsIndex::from(vec![IdMapConf { source: 1, destinations: vec![10] }]);
    let mut pipelines = PipelinesIndex::from(vec![]);
    let mut default_pipeline = Pipeline::default();
    let mut moderator = NoModeration;
    let message = text_message(99, "hello", false);

    let reports = dispatch_message(
        &mappings,
        &mut pipelines,
        &mut default_pipeline,
        &message,
        &mut moderator,
    );

    assert!(reports.is_empty());
}

#[test]
fn dispatch_rejects_an_outgoing_message() {
    let mappings = MappingsIndex::from(vec![IdMapConf { source: 1, destinations: vec![10] }]);
    let mut pipelines = PipelinesIndex::from(vec![]);
    let mut default_pipeline = Pipeline::default();
    let mut moderator = NoModeration;
    let message = text_message(1, "hello", true);

    let reports = dispatch_message(
        &mappings,
        &mut pipelines,
        &mut default_pipeline,
        &message,
        &mut moderator,
    );

    assert_eq!(1, reports.len());
    assert!(reports[0].results[0].is_err());
}

#[test]
fn moderation_absent_service_rejects() {
    // With no service behind the moderation filter, the check rejects.
    let mut pipeline = Pipeline::from(PipelineConf {
        name: "moderated".to_string(),
        route: RouteConf::default(),
        filters: vec![FilterConf::OpenAi {
            model: "gpt-test".to_string(),
            context: "anything".to_string(),
            guidelines: "anything".to_string(),
        }],
        pipes: vec![],
    });
    let mut moderator = NoModeration;
    let message = text_message(1, "hello", false);
    match pipeline.handle(message, &mut moderator) {
        Err(PipelineError::FilterError(name)) => assert_eq!("OpenAi", name),
        _ => panic!("a failed moderation call must reject"),
    }
}

#[test]
fn openai_decision_reads_the_allow_flag() {
    let allowing = ModerationReply::Answers(vec![Some("{\"allow\": true}".to_string())]);
    let denying = ModerationReply::Answers(vec![Some("{\"allow\": false}".to_string())]);
    let unreadable = ModerationReply::Answers(vec![Some("not json".to_string())]);
    let empty = ModerationReply::Answers(vec![None]);

    assert!(OpenAi::decide(&allowing));
    assert!(!OpenAi::decide(&denying));
    assert!(!OpenAi::decide(&unreadable));
    assert!(!OpenAi::decide(&empty));
    assert!(!OpenAi::decide(&ModerationReply::Failed));
}

#[test]
fn context_decision_reads_the_numeric_answer() {
    let allowing = ModerationReply::Answers(vec![Some("1".to_string())]);
    let denying = ModerationReply::Answers(vec![Some("0".to_string())]);
    let unreadable = ModerationReply::Answers(vec![Some("yes".to_string())]);

    assert!(Context::decide(&allowing));
    assert!(!Context::decide(&denying));
    assert!(!Context::decide(&unreadable));
    assert!(!Context::decide(&ModerationReply::Failed));
}

#[test]
fn dedup_rejects_every_repeat_of_a_text() {
    let data = DataHub::new(text_message(1, "a rather particular dedup probe", false));
    let mut filter = FilterType::from(FilterConf::Unique);
    let mut moderator = NoModeration;

    let _ = filter.filter(&data, &mut moderator);
    assert_eq!(Err(()), filter.filter(&data, &mut moderator));
    assert_eq!(Err(()), filter.filter(&data, &mut moderator));
}
