use hephaestus::logger::{
    get_messages, log_debug, log_error, log_info, log_warning, Log, LogLevel, Message, MessageEmitter,
};

#[test]
fn messages_come_out_in_time_order() {
    let mut log = Log::new();
    log_info(&mut log, "second", MessageEmitter::Engine, 20);
    log_debug(&mut log, "first", MessageEmitter::World, 10);
    log_error(&mut log, "third", MessageEmitter::Renderer, 30);
    let msgs = get_messages(&log);
    let contents: Vec<&str> = msgs.iter().map(|m| m.content.as_str()).collect();
    assert_eq!(contents, vec!["first", "second", "third"]);
    assert_eq!(msgs[0].level, LogLevel::Debug);
    assert_eq!(msgs[1].level, LogLevel::Info);
    assert_eq!(msgs[2].level, LogLevel::Error);
    assert_eq!(msgs[0].time, 10);
}

#[test]
fn equal_time_stamps_keep_both_messages_in_arrival_order() {
    let mut log = Log::new();
    log_warning(&mut log, "a", MessageEmitter::Engine, 5);
    log_warning(&mut log, "b", MessageEmitter::Engine, 5);
    let msgs = get_messages(&log);
    assert_eq!(msgs.len(), 2);
    assert_eq!(msgs[0].content, "a");
    assert_eq!(msgs[1].content, "b");
    assert_eq!(msgs[1].level, LogLevel::Warning);
}

#[test]
fn empty_log_has_no_messages() {
    let log = Log::new();
    assert!(get_messages(&log).is_empty());
}

#[test]
fn message_new_keeps_its_fields() {
    let m = Message::new("hi".to_string(), LogLevel::Info, MessageEmitter::Object("cube".to_string()), 7);
    assert_eq!(m.content, "hi");
    assert_eq!(m.time, 7);
    assert_eq!(m.emitter.name(), "cube");
    let mut log = Log::new();
    log.log(m);
    assert_eq!(get_messages(&log)[0].emitter.name(), "cube");
}

#[test]
fn level_colors_and_tags() {
    assert_eq!(LogLevel::Debug.color(), [128, 128, 128]);
    assert_eq!(LogLevel::Info.color(), [255, 255, 255]);
    assert_eq!(LogLevel::Warning.color(), [255, 200, 64]);
    assert_eq!(LogLevel::Error.color(), [255, 64, 64]);
    assert_eq!(LogLevel::Debug.tag(), "DEBUG");
    assert_eq!(LogLevel::Info.tag(), "INFO ");
    assert_eq!(LogLevel::Warning.tag(), "WARN ");
    assert_eq!(LogLevel::Error.tag(), "ERROR");
}

#[test]
fn emitter_names() {
    assert_eq!(MessageEmitter::Engine.name(), "Engine");
    assert_eq!(MessageEmitter::Renderer.name(), "Renderer");
    assert_eq!(MessageEmitter::World.name(), "World");
}
