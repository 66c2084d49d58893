use nothing::state_db::DBError;
use nothing::web::error::GenerationError;
use nothing::web::generation::{close_event, Button, Chunk, GenerationStream, StreamAction, Target};

fn chunk(response: &str, done: bool) -> Chunk {
    Chunk { response: response.to_string(), done }
}

fn emitted_data(action: StreamAction) -> String {
    match action {
        StreamAction::Emit(Ok(m)) => {
            assert_eq!(m.event, "generation_chunk");
            m.data
        }
        other => panic!("expected an event, got {:?}", other),
    }
}

#[test]
fn events_carry_all_the_text_so_far() {
    let mut s = GenerationStream::new(4, Target::Post);
    assert!(s.is_idle());
    let a = s.on_item(Ok(vec![chunk("Sun", false), chunk("ny ", false)]));
    assert_eq!(emitted_data(a), "Sunny ");
    let a = s.on_item(Ok(vec![]));
    assert_eq!(emitted_data(a), "Sunny ");
    let a = s.on_item(Ok(vec![chunk("day", false)]));
    assert_eq!(emitted_data(a), "Sunny day");
    assert!(s.is_idle());
}

#[test]
fn the_whole_text_is_stored_when_done_and_replaced_by_the_button() {
    let mut s = GenerationStream::new(4, Target::Post);
    let a = s.on_item(Ok(vec![chunk("Hello ", false)]));
    assert_eq!(emitted_data(a), "Hello ");
    let a = s.on_item(Ok(vec![chunk("world", false), chunk(" #hi", true)]));
    match a {
        StreamAction::WriteGeneration { generation_group, content } => {
            assert_eq!(generation_group, 4);
            assert_eq!(content, "Hello world #hi");
        }
        other => panic!("expected a write, got {:?}", other),
    }
    assert!(s.is_writing());
    let a = s.on_written(Ok(77));
    match a {
        StreamAction::Render(Button::Post(b)) => {
            assert_eq!(b.generation_id, 77);
            assert_eq!(b.post_data, "Hello world #hi");
        }
        other => panic!("expected a post button, got {:?}", other),
    }
    assert!(s.is_rendering());
    let a = s.on_rendered(Ok("<button>77</button>".to_string()));
    assert_eq!(emitted_data(a), "<button>77</button>");
    assert!(s.is_idle());
}

#[test]
fn fragments_after_done_are_appended_to_the_button() {
    let mut s = GenerationStream::new(1, Target::Post);
    let a = s.on_item(Ok(vec![chunk("text", true), chunk("!", false)]));
    assert!(matches!(a, StreamAction::WriteGeneration { .. }));
    let _ = s.on_written(Ok(5));
    let a = s.on_rendered(Ok("<b/>".to_string()));
    assert_eq!(emitted_data(a), "<b/>!");
}

#[test]
fn a_reply_stream_renders_a_reply_button() {
    let mut s = GenerationStream::new(9, Target::Reply { post_id: 3 });
    let a = s.on_item(Ok(vec![chunk("Agreed.", true)]));
    assert!(matches!(a, StreamAction::WriteGeneration { generation_group: 9, .. }));
    match s.on_written(Ok(15)) {
        StreamAction::Render(Button::Reply(b)) => {
            assert_eq!(b.generation_id, 15);
            assert_eq!(b.post_id, 3);
            assert_eq!(b.reply_data, "Agreed.");
        }
        other => panic!("expected a reply button, got {:?}", other),
    }
}

#[test]
fn a_model_error_is_sent_as_the_item_error() {
    let mut s = GenerationStream::new(1, Target::Post);
    let _ = s.on_item(Ok(vec![chunk("ab", false)]));
    let a = s.on_item(Err(ollama_rs::error::OllamaError::Other("lost".to_string())));
    assert!(matches!(a, StreamAction::Emit(Err(GenerationError::Ollama(_)))));
    assert!(s.is_idle());
    let a = s.on_item(Ok(vec![chunk("c", false)]));
    assert_eq!(emitted_data(a), "abc");
}

#[test]
fn a_storage_error_ends_the_item_and_keeps_the_text() {
    let mut s = GenerationStream::new(1, Target::Post);
    let _ = s.on_item(Ok(vec![chunk("done", true), chunk("dropped", false)]));
    let a = s.on_written(Err(DBError::MissingGeneration));
    assert!(matches!(a, StreamAction::Emit(Err(GenerationError::DB(DBError::MissingGeneration)))));
    assert!(s.is_idle());
    let a = s.on_item(Ok(vec![chunk("+", false)]));
    assert_eq!(emitted_data(a), "done+");
}

#[test]
fn a_rendering_error_ends_the_item_and_keeps_the_text() {
    let mut s = GenerationStream::new(1, Target::Post);
    let _ = s.on_item(Ok(vec![chunk("x", true), chunk("dropped", false)]));
    let _ = s.on_written(Ok(2));
    let a = s.on_rendered(Err(askama::Error::Fmt));
    assert!(matches!(a, StreamAction::Emit(Err(GenerationError::Templating(askama::Error::Fmt)))));
    assert!(s.is_idle());
    let a = s.on_item(Ok(vec![]));
    assert_eq!(emitted_data(a), "x");
}

#[test]
fn the_stream_ends_with_a_close_event() {
    let m = close_event();
    assert_eq!(m.event, "close");
    assert_eq!(m.data, "");
}
