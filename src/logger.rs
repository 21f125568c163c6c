use vstd::prelude::*;

verus! {

/// How much a log message matters.
#[derive(Clone, Copy, Debug, PartialEq, Eq, Structural)]
pub enum LogLevel {
    Debug,
    Info,
    Warning,
    Error,
}

/// The color (red, green, blue) a message of level `level` is shown in.
pub open spec fn level_color(level: LogLevel) -> [u8; 3] {
    match level {
        LogLevel::Debug => [128u8, 128u8, 128u8],
        LogLevel::Info => [255u8, 255u8, 255u8],
        LogLevel::Warning => [255u8, 200u8, 64u8],
        LogLevel::Error => [255u8, 64u8, 64u8],
    }
}

/// The five-character tag that opens a formatted message of level `level`.
pub open spec fn level_tag(level: LogLevel) -> Seq<char> {
    match level {
        LogLevel::Debug => "DEBUG"@,
        LogLevel::Info => "INFO "@,
        LogLevel::Warning => "WARN "@,
        LogLevel::Error => "ERROR"@,
    }
}

impl LogLevel {
    /// The color the message is shown in: grey for debug, white for info,
    /// amber for warnings and red for errors.
    pub fn color(&self) -> (r: [u8; 3])
        ensures
            r == level_color(*self),
    {
        match self {
            LogLevel::Debug => [128u8, 128u8, 128u8],
            LogLevel::Info => [255u8, 255u8, 255u8],
            LogLevel::Warning => [255u8, 200u8, 64u8],
            LogLevel::Error => [255u8, 64u8, 64u8],
        }
    }

    /// The tag that opens a formatted message.
    pub fn tag(&self) -> (r: &'static str)
        ensures
            r@ == level_tag(*self),
    {
        match self {
            LogLevel::Debug => "DEBUG",
            LogLevel::Info => "INFO ",
            LogLevel::Warning => "WARN ",
            LogLevel::Error => "ERROR",
        }
    }
}

/// The part of the program a message comes from.
#[derive(Clone, Debug)]
pub enum MessageEmitter {
    /// A scene object, by name.
    Object(String),
    Engine,
    Renderer,
    World,
}

/// The name a message's emitter is shown under.
pub open spec fn emitter_name(emitter: MessageEmitter) -> Seq<char> {
    match emitter {
        MessageEmitter::Object(name) => name@,
        MessageEmitter::Engine => "Engine"@,
        MessageEmitter::Renderer => "Renderer"@,
        MessageEmitter::World => "World"@,
    }
}

impl MessageEmitter {
    pub fn name(&self) -> (r: &str)
        ensures
            r@ == emitter_name(*self),
    {
        match self {
            MessageEmitter::Object(name) => name.as_str(),
            MessageEmitter::Engine => "Engine",
            MessageEmitter::Renderer => "Renderer",
            MessageEmitter::World => "World",
        }
    }
}

/// One log entry; `time` is in nanoseconds since the Unix epoch.
#[derive(Clone, Debug)]
pub struct Message {
    pub content: String,
    pub time: u64,
    pub level: LogLevel,
    pub emitter: MessageEmitter,
}

impl Message {
    pub fn new(content: String, level: LogLevel, emitter: MessageEmitter, time: u64) -> (r: Message)
        ensures
            r == (Message { content, time, level, emitter }),
    {
        Message { content, time, level, emitter }
    }
}

/// Messages are kept oldest first.
pub open spec fn by_time(msgs: Seq<Message>) -> bool {
    forall|i: int, j: int| 0 <= i < j < msgs.len() ==> msgs[i].time <= msgs[j].time
}

/// `p` is where a message stamped `t` goes in `msgs`: after every message not
/// later than it, before every later one.
pub open spec fn insertion_point(msgs: Seq<Message>, t: u64, p: int) -> bool {
    &&& 0 <= p <= msgs.len()
    &&& forall|k: int| 0 <= k < p ==> msgs[k].time <= t
    &&& forall|k: int| p <= k < msgs.len() ==> msgs[k].time > t
}

/// `r` is `msgs` with `m` placed by its time stamp.
pub open spec fn inserted_by_time(msgs: Seq<Message>, m: Message, r: Seq<Message>) -> bool {
    exists|p: int| insertion_point(msgs, m.time, p) && r == msgs.take(p).push(m) + msgs.skip(p)
}

/// `r` is `msgs` with a message of `level` from `emitter`, saying `content`
/// and stamped `time`, placed by its time stamp.
pub open spec fn logged(
    msgs: Seq<Message>,
    content: Seq<char>,
    level: LogLevel,
    emitter: MessageEmitter,
    time: u64,
    r: Seq<Message>,
) -> bool {
    exists|p: int|
        insertion_point(msgs, time, p) && r.len() == msgs.len() + 1 && r.take(p) == msgs.take(p)
            && r.skip(p + 1) == msgs.skip(p) && r[p].content@ == content && r[p].time == time
            && r[p].level == level && r[p].emitter == emitter
}

/// A log: the messages of a run, in the order of their time stamps.
pub struct Log {
    messages: Vec<Message>,
}

impl View for Log {
    type V = Seq<Message>;

    closed spec fn view(&self) -> Seq<Message> {
        self.messages@
    }
}

impl Log {
    pub fn new() -> (r: Log)
        ensures
            r@ == Seq::<Message>::empty(),
    {
        Log { messages: Vec::new() }
    }

    /// Records `message`, after every message stamped no later than it.
    pub fn log(&mut self, message: Message)
        requires
            by_time(old(self)@),
        ensures
            inserted_by_time(old(self)@, message, final(self)@),
            by_time(final(self)@),
    {
        let mut p: usize = 0;
        while p < self.messages.len() && self.messages[p].time <= message.time
            invariant
                0 <= p <= self@.len(),
                self@ == old(self)@,
                by_time(self@),
                forall|k: int| 0 <= k < p ==> self@[k].time <= message.time,
            decreases self@.len() - p,
        {
            p = p + 1;
        }
        let ghost old_msgs = self@;
        assert(forall|k: int| p <= k < old_msgs.len() ==> old_msgs[k].time > message.time) by {
            assert forall|k: int| p <= k < old_msgs.len() implies old_msgs[k].time > message.time by {
                assert(old_msgs[p as int].time > message.time);
            }
        }
        let ghost t = message.time;
        let ghost m = message;
        self.messages.insert(p, message);
        assert(self@ =~= old_msgs.take(p as int).push(m) + old_msgs.skip(p as int));
        assert(insertion_point(old_msgs, t, p as int));
        assert(by_time(self@)) by {
            assert forall|i: int, j: int| 0 <= i < j < self@.len() implies self@[i].time <= self@[j].time by {
                if j < p {
                } else if j == p {
                } else if i < p {
                    assert(old_msgs[j - 1].time > t);
                } else if i == p {
                    assert(old_msgs[j - 1].time > t);
                } else {
                    assert(old_msgs[i - 1].time <= old_msgs[j - 1].time);
                }
            }
        }
    }
}

/// Records a debug message from `emitter`, stamped `time`.
pub fn log_debug(log: &mut Log, content: &str, emitter: MessageEmitter, time: u64)
    requires
        by_time(old(log)@),
    ensures
        logged(old(log)@, content@, LogLevel::Debug, emitter, time, final(log)@),
        by_time(final(log)@),
{
    log_at_level(log, content, LogLevel::Debug, emitter, time)
}

/// Records an info message from `emitter`, stamped `time`.
pub fn log_info(log: &mut Log, content: &str, emitter: MessageEmitter, time: u64)
    requires
        by_time(old(log)@),
    ensures
        logged(old(log)@, content@, LogLevel::Info, emitter, time, final(log)@),
        by_time(final(log)@),
{
    log_at_level(log, content, LogLevel::Info, emitter, time)
}

/// Records a warning message from `emitter`, stamped `time`.
pub fn log_warning(log: &mut Log, content: &str, emitter: MessageEmitter, time: u64)
    requires
        by_time(old(log)@),
    ensures
        logged(old(log)@, content@, LogLevel::Warning, emitter, time, final(log)@),
        by_time(final(log)@),
{
    log_at_level(log, content, LogLevel::Warning, emitter, time)
}

/// Records an error message from `emitter`, stamped `time`.
pub fn log_error(log: &mut Log, content: &str, emitter: MessageEmitter, time: u64)
    requires
        by_time(old(log)@),
    ensures
        logged(old(log)@, content@, LogLevel::Error, emitter, time, final(log)@),
        by_time(final(log)@),
{
    log_at_level(log, content, LogLevel::Error, emitter, time)
}

fn log_at_level(log: &mut Log, content: &str, level: LogLevel, emitter: MessageEmitter, time: u64)
    requires
        by_time(old(log)@),
    ensures
        logged(old(log)@, content@, level, emitter, time, final(log)@),
        by_time(final(log)@),
{
    let m = Message::new(content.to_owned(), level, emitter, time);
    let ghost msg = m;
    log.log(m);
    let ghost p = choose|p: int| insertion_point(old(log)@, time, p) && final(log)@ == old(log)@.take(p).push(msg) + old(log)@.skip(p);
    assert(final(log)@.take(p) =~= old(log)@.take(p));
    assert(final(log)@.skip(p + 1) =~= old(log)@.skip(p));
    assert(final(log)@[p] == msg);
}

/// Every message of the log, oldest first.
pub fn get_messages(log: &Log) -> (r: &Vec<Message>)
    ensures
        r@ == log@,
{
    &log.messages
}

} // verus!
