//! The link that drives the EtherCAT segment from this machine: its option
//! record, the configuration that the record converts to, and what is needed
//! to construct the link.
use vstd::prelude::*;
use vstd::utf8::*;
use crate::cstr::{decode_nullable, is_text, text_of, InvalidText};
use crate::duration::Duration;
use crate::handler::{addresses, ErrorHandler};
use crate::sleeper::{select_sleeper, sleeper_for, Sleeper, SleeperWrap};
use crate::thread_priority::{
    ThreadPriorityDescriptor,
    ThreadPriorityPtr,
    ThreadPriorityTable,
};

verus! {

/// Priority class of the process that runs the link.
#[derive(Clone, Copy, Debug, PartialEq, Eq, Structural)]
pub enum ProcessPriority {
    Idle,
    BelowNormal,
    Normal,
    AboveNormal,
    High,
    Realtime,
}

/// The kind of platform that the link runs on, as far as the options care.
#[derive(Clone, Copy, Debug, PartialEq, Eq, Structural)]
pub enum Platform {
    /// A process priority class can be set.
    Windows,
    /// There is no process priority class: the option is read and dropped.
    Other,
}

impl Platform {
    /// Whether a process priority class is honored on this platform.
    pub open spec fn honors_process_priority(self) -> bool {
        self == Platform::Windows
    }
}

/// The option record as the foreign caller fills it in.
#[derive(Debug)]
pub struct SOEMOption {
    /// Bytes of the interface name, terminator excluded; `None` for a null
    /// pointer. The empty name asks the link to find the interface itself.
    pub ifname: Option<Vec<u8>>,
    /// Size of the send queue. Zero is not a size.
    pub buf_size: u32,
    /// Time between two frames sent.
    pub send_cycle: Duration,
    /// Period of the sync0 signal.
    pub sync0_cycle: Duration,
    /// Read on every platform, honored on some.
    pub process_priority: ProcessPriority,
    /// Handle of the thread priority. Converting the record consumes it.
    pub thread_priority: ThreadPriorityPtr,
    /// Time between two checks of the slaves' states.
    pub state_check_interval: Duration,
    /// How far the slaves' clocks may be apart when they count as
    /// synchronized.
    pub sync_tolerance: Duration,
    /// How long the link waits for the slaves to synchronize.
    pub sync_timeout: Duration,
    /// Logical core to pin the link's thread to; any negative number for none.
    pub affinity: i32,
}

/// The configuration that the link engine is constructed with.
#[derive(Debug)]
pub struct SoemConfig {
    /// Size of the send queue, never zero.
    pub buf_size: usize,
    /// Name of the network interface; empty to let the link find it.
    pub ifname: String,
    /// Time between two checks of the slaves' states.
    pub state_check_interval: Duration,
    /// Period of the sync0 signal.
    pub sync0_cycle: Duration,
    /// Time between two frames sent.
    pub send_cycle: Duration,
    /// Priority of the link's thread.
    pub thread_priority: ThreadPriorityDescriptor,
    /// Priority class of the process; `None` where the platform has none.
    pub process_priority: Option<ProcessPriority>,
    /// How far the slaves' clocks may be apart when they count as
    /// synchronized.
    pub sync_tolerance: Duration,
    /// How long the link waits for the slaves to synchronize.
    pub sync_timeout: Duration,
    /// Logical core that the link's thread is pinned to, if any.
    pub affinity: Option<usize>,
}

/// A configuration as a mathematical value.
pub struct SoemConfigView {
    pub buf_size: nat,
    pub ifname: Seq<char>,
    pub state_check_interval: Duration,
    pub sync0_cycle: Duration,
    pub send_cycle: Duration,
    pub thread_priority: ThreadPriorityDescriptor,
    pub process_priority: Option<ProcessPriority>,
    pub sync_tolerance: Duration,
    pub sync_timeout: Duration,
    pub affinity: Option<nat>,
}

impl View for SoemConfig {
    type V = SoemConfigView;

    open spec fn view(&self) -> SoemConfigView {
        SoemConfigView {
            buf_size: self.buf_size as nat,
            ifname: self.ifname@,
            state_check_interval: self.state_check_interval,
            sync0_cycle: self.sync0_cycle,
            send_cycle: self.send_cycle,
            thread_priority: self.thread_priority,
            process_priority: self.process_priority,
            sync_tolerance: self.sync_tolerance,
            sync_timeout: self.sync_timeout,
            affinity: match self.affinity {
                Some(id) => Some(id as nat),
                None => None,
            },
        }
    }
}

impl SoemConfig {
    /// Whether the configuration can be handed to the engine: the send queue
    /// has room for at least one frame.
    pub open spec fn wf(&self) -> bool {
        self.buf_size > 0
    }
}

/// Why an option record does not convert.
#[derive(Clone, Copy, Debug, PartialEq, Eq, Structural)]
pub enum OptionErrorKind {
    /// The interface name is not valid UTF-8.
    InvalidInterfaceName,
    /// The send queue was given no room.
    ZeroBufferSize,
    /// The thread priority handle refers to no descriptor: it was never
    /// issued, or an earlier conversion has consumed it.
    InvalidThreadPriority,
}

/// The failure of a conversion, with what is needed for its message.
#[derive(Debug)]
pub enum OptionError {
    InvalidInterfaceName(InvalidText),
    ZeroBufferSize,
    InvalidThreadPriority,
}

impl OptionError {
    /// What the failure says of itself: for an interface name the decoder's
    /// account, else a text of this library.
    pub fn message(&self) -> (msg: String)
        ensures
            match self {
                OptionError::InvalidInterfaceName(cause) => {
                    vstd::string::to_string_from_display_ensures::<core::str::Utf8Error>(
                        &cause.0,
                        msg,
                    )
                },
                OptionError::ZeroBufferSize => msg@ == "buffer size must not be zero"@,
                OptionError::InvalidThreadPriority => msg@
                    == "thread priority handle refers to no descriptor"@,
            },
    {
        match self {
            OptionError::InvalidInterfaceName(cause) => cause.message(),
            OptionError::ZeroBufferSize => "buffer size must not be zero".to_owned(),
            OptionError::InvalidThreadPriority => {
                "thread priority handle refers to no descriptor".to_owned()
            },
        }
    }

    /// Which of the failures this is.
    pub open spec fn kind(&self) -> OptionErrorKind {
        match self {
            OptionError::InvalidInterfaceName(_) => OptionErrorKind::InvalidInterfaceName,
            OptionError::ZeroBufferSize => OptionErrorKind::ZeroBufferSize,
            OptionError::InvalidThreadPriority => OptionErrorKind::InvalidThreadPriority,
        }
    }
}

impl SOEMOption {
    /// The bytes of the interface name, if the pointer was not null.
    pub open spec fn ifname_bytes(&self) -> Option<Seq<u8>> {
        match self.ifname {
            Some(bytes) => Some(bytes@),
            None => None,
        }
    }

    /// The core that the affinity selects: none for a negative number.
    pub open spec fn pinned_core(&self) -> Option<nat> {
        if self.affinity < 0 {
            None
        } else {
            Some(self.affinity as nat)
        }
    }

    /// What the record converts to while `priorities` are the descriptors
    /// alive. The checks come in this order: the interface name, the buffer
    /// size, the thread priority handle.
    pub open spec fn converted(
        &self,
        priorities: Map<int, ThreadPriorityDescriptor>,
        platform: Platform,
    ) -> Result<SoemConfigView, OptionErrorKind> {
        if !is_text(self.ifname_bytes()) {
            Err(OptionErrorKind::InvalidInterfaceName)
        } else if self.buf_size == 0 {
            Err(OptionErrorKind::ZeroBufferSize)
        } else if !priorities.dom().contains(self.thread_priority.0 as int) {
            Err(OptionErrorKind::InvalidThreadPriority)
        } else {
            Ok(
                SoemConfigView {
                    buf_size: self.buf_size as nat,
                    ifname: text_of(self.ifname_bytes()),
                    state_check_interval: self.state_check_interval,
                    sync0_cycle: self.sync0_cycle,
                    send_cycle: self.send_cycle,
                    thread_priority: priorities[self.thread_priority.0 as int],
                    process_priority: if platform.honors_process_priority() {
                        Some(self.process_priority)
                    } else {
                        None
                    },
                    sync_tolerance: self.sync_tolerance,
                    sync_timeout: self.sync_timeout,
                    affinity: self.pinned_core(),
                },
            )
        }
    }

    /// The descriptors that are alive after the record was converted: a
    /// conversion that succeeds consumes the record's descriptor, one that
    /// fails consumes nothing.
    pub open spec fn remaining(
        &self,
        priorities: Map<int, ThreadPriorityDescriptor>,
        platform: Platform,
    ) -> Map<int, ThreadPriorityDescriptor> {
        if self.converted(priorities, platform) is Ok {
            priorities.remove(self.thread_priority.0 as int)
        } else {
            priorities
        }
    }
}

impl SoemConfig {
    /// Converts the record into the engine's configuration and consumes its
    /// thread priority descriptor. A record that does not convert leaves the
    /// table as it was.
    pub fn try_from(
        value: SOEMOption,
        priorities: &mut ThreadPriorityTable,
        platform: Platform,
    ) -> (r: Result<SoemConfig, OptionError>)
        ensures
            match r {
                Ok(config) => value.converted(old(priorities)@, platform) == Ok::<
                    SoemConfigView,
                    OptionErrorKind,
                >(config@) && config.wf(),
                Err(e) => value.converted(old(priorities)@, platform) == Err::<
                    SoemConfigView,
                    OptionErrorKind,
                >(e.kind()),
            },
            final(priorities)@ == value.remaining(old(priorities)@, platform),
            final(priorities).issued() == old(priorities).issued(),
    {
        let ifname = match &value.ifname {
            Some(bytes) => decode_nullable(Some(bytes.as_slice())),
            None => decode_nullable(None),
        };
        let ifname = match ifname {
            Ok(name) => name,
            Err(e) => {
                return Err(OptionError::InvalidInterfaceName(e));
            },
        };
        if value.buf_size == 0 {
            return Err(OptionError::ZeroBufferSize);
        }
        let thread_priority = match priorities.take(value.thread_priority.0) {
            Some(descriptor) => descriptor,
            None => {
                assert(priorities@ =~= old(priorities)@);
                return Err(OptionError::InvalidThreadPriority);
            },
        };
        let process_priority = match platform {
            Platform::Windows => Some(value.process_priority),
            Platform::Other => None,
        };
        let affinity = if value.affinity < 0 {
            None
        } else {
            Some(value.affinity as usize)
        };
        Ok(
            SoemConfig {
                buf_size: value.buf_size as usize,
                ifname,
                state_check_interval: value.state_check_interval,
                sync0_cycle: value.sync0_cycle,
                send_cycle: value.send_cycle,
                thread_priority,
                process_priority,
                sync_tolerance: value.sync_tolerance,
                sync_timeout: value.sync_timeout,
                affinity,
            },
        )
    }
}

/// The configuration that the link engine starts from when nothing is asked
/// of it. A process priority class is part of it only where one is honored.
pub open spec fn default_config(platform: Platform) -> SoemConfigView {
    SoemConfigView {
        buf_size: 16,
        ifname: Seq::empty(),
        state_check_interval: Duration { nanos: 100_000_000 },
        sync0_cycle: Duration { nanos: 1_000_000 },
        send_cycle: Duration { nanos: 1_000_000 },
        thread_priority: ThreadPriorityDescriptor::Max,
        process_priority: if platform.honors_process_priority() {
            Some(ProcessPriority::High)
        } else {
            None
        },
        sync_tolerance: Duration { nanos: 1_000 },
        sync_timeout: Duration { nanos: 10_000_000_000 },
        affinity: None,
    }
}

/// `SOEMOption::default()` of the link engine, field by field, as it is built
/// where no process priority class exists. The engine's source gives: a send
/// queue of 16, no interface name, a state check every 100 ms, both cycles
/// twice the EtherCAT base time of 500 us, the greatest thread priority, a
/// tolerance of 1 us, a timeout of 10 s and no affinity.
#[verifier::external_body]
fn engine_default_option() -> (d: Option<SoemConfig>)
    ensures
        d is Some,
        d.unwrap()@ == default_config(Platform::Other),
{
    let d = autd3_link_soem::SOEMOption::default();
    let span = |t: std::time::Duration| Duration { nanos: t.as_nanos() as u64 };
    let thread_priority = match d.thread_priority {
        autd3_link_soem::ThreadPriority::Min => ThreadPriorityDescriptor::Min,
        autd3_link_soem::ThreadPriority::Max => ThreadPriorityDescriptor::Max,
        _ => return None,
    };
    Some(SoemConfig {
        buf_size: d.buf_size.get(), ifname: d.ifname, thread_priority, process_priority: None,
        state_check_interval: span(d.state_check_interval), sync0_cycle: span(d.sync0_cycle),
        send_cycle: span(d.send_cycle), sync_tolerance: span(d.sync_tolerance),
        sync_timeout: span(d.sync_timeout), affinity: d.affinity.map(|c| c.id),
    })
}

impl SoemConfig {
    /// Compares two configurations field by field.
    pub fn same_as(&self, other: &SoemConfig) -> (same: bool)
        ensures
            same == (self@ == other@),
    {
        let same = self.buf_size == other.buf_size && self.ifname == other.ifname
            && self.state_check_interval == other.state_check_interval && self.sync0_cycle
            == other.sync0_cycle && self.send_cycle == other.send_cycle && self.thread_priority
            == other.thread_priority && self.process_priority == other.process_priority
            && self.sync_tolerance == other.sync_tolerance && self.sync_timeout
            == other.sync_timeout && self.affinity == other.affinity;
        same
    }
}

/// Whether `option` converts to the engine's default configuration.
pub open spec fn is_default(
    option: SOEMOption,
    priorities: Map<int, ThreadPriorityDescriptor>,
    platform: Platform,
) -> bool {
    option.converted(priorities, platform) == Ok::<SoemConfigView, OptionErrorKind>(
        default_config(platform),
    )
}

/// Tells whether `option` asks for the configuration that the engine starts
/// from anyway. The record is converted as for a link, so its thread priority
/// descriptor is consumed. A record that does not convert is no default:
/// the answer is `false`, never an error.
pub fn AUTDLinkSOEMIsDefault(
    priorities: &mut ThreadPriorityTable,
    platform: Platform,
    option: SOEMOption,
) -> (default: bool)
    ensures
        default == is_default(option, old(priorities)@, platform),
        final(priorities)@ == option.remaining(old(priorities)@, platform),
        final(priorities).issued() == old(priorities).issued(),
{
    match SoemConfig::try_from(option, priorities, platform) {
        Ok(config) => {
            match engine_default_option() {
                Some(d) => {
                    let mut d = d;
                    match platform {
                        Platform::Windows => {
                            d.process_priority = Some(ProcessPriority::High);
                        },
                        Platform::Other => {},
                    }
                    config.same_as(&d)
                },
                None => false,
            }
        },
        Err(_) => false,
    }
}

/// All that the link engine's constructor is to be called with.
#[derive(Debug)]
pub struct SOEMBuilder {
    /// The engine's configuration.
    pub option: SoemConfig,
    /// The foreign handler to tell of status changes, if one was given.
    pub err_handler: Option<ErrorHandler>,
    /// How the link waits between two cycles.
    pub sleeper: Sleeper,
}

/// Prepares the construction of a link. The option record is converted
/// first, and a record that does not convert ends the call with its error:
/// no handler is registered then and no sleeper selected. Else the handler is
/// registered unless its function pointer is null, and the sleeper is the one
/// that `sleeper` selects, the blocking one if there is no selector.
pub fn AUTDLinkSOEM(
    priorities: &mut ThreadPriorityTable,
    platform: Platform,
    err_handler: usize,
    err_context: usize,
    option: SOEMOption,
    sleeper: Option<SleeperWrap>,
) -> (r: Result<SOEMBuilder, OptionError>)
    ensures
        match r {
            Ok(link) => {
                &&& option.converted(old(priorities)@, platform) == Ok::<
                    SoemConfigView,
                    OptionErrorKind,
                >(link.option@)
                &&& link.option.wf()
                &&& addresses(link.err_handler) == ErrorHandler::registered(
                    err_handler,
                    err_context,
                )
                &&& link.sleeper == sleeper_for(sleeper)
            },
            Err(e) => option.converted(old(priorities)@, platform) == Err::<
                SoemConfigView,
                OptionErrorKind,
            >(e.kind()),
        },
        final(priorities)@ == option.remaining(old(priorities)@, platform),
        final(priorities).issued() == old(priorities).issued(),
{
    match SoemConfig::try_from(option, priorities, platform) {
        Ok(config) => Ok(
            SOEMBuilder {
                option: config,
                err_handler: ErrorHandler::new(err_handler, err_context),
                sleeper: select_sleeper(sleeper),
            },
        ),
        Err(e) => Err(e),
    }
}

/// Whether two records ask for the same thing but for the descriptor, which
/// each holds under a handle of its own.
pub open spec fn same_request(first: SOEMOption, second: SOEMOption) -> bool {
    &&& first.ifname_bytes() == second.ifname_bytes()
    &&& first.buf_size == second.buf_size
    &&& first.send_cycle == second.send_cycle
    &&& first.sync0_cycle == second.sync0_cycle
    &&& first.process_priority == second.process_priority
    &&& first.state_check_interval == second.state_check_interval
    &&& first.sync_tolerance == second.sync_tolerance
    &&& first.sync_timeout == second.sync_timeout
    &&& first.affinity == second.affinity
}

/// Converting is a function of the record's values: two records that ask for
/// the same thing, each with a descriptor of its own that says the same,
/// convert to the same result one after the other.
pub proof fn lemma_conversion_is_deterministic(
    first: SOEMOption,
    second: SOEMOption,
    priorities: Map<int, ThreadPriorityDescriptor>,
    platform: Platform,
)
    requires
        same_request(first, second),
        first.thread_priority != second.thread_priority,
        priorities.dom().contains(first.thread_priority.0 as int),
        priorities.dom().contains(second.thread_priority.0 as int),
        priorities[first.thread_priority.0 as int] == priorities[second.thread_priority.0 as int],
    ensures
        second.converted(first.remaining(priorities, platform), platform) == first.converted(
            priorities,
            platform,
        ),
{
}

/// A descriptor is consumed once: after a record has converted, no record
/// converts with the same handle, and one that is sound otherwise is
/// refused for its handle.
pub proof fn lemma_consumed_handle_is_refused(
    first: SOEMOption,
    second: SOEMOption,
    priorities: Map<int, ThreadPriorityDescriptor>,
    platform: Platform,
)
    requires
        first.converted(priorities, platform) is Ok,
        second.thread_priority == first.thread_priority,
    ensures
        second.converted(first.remaining(priorities, platform), platform) is Err,
        is_text(second.ifname_bytes()) && second.buf_size != 0 ==> second.converted(
            first.remaining(priorities, platform),
            platform,
        ) == Err::<SoemConfigView, OptionErrorKind>(OptionErrorKind::InvalidThreadPriority),
{
}

/// A null interface name and an empty one convert alike.
pub proof fn lemma_null_name_is_empty_name(
    null: SOEMOption,
    empty: SOEMOption,
    priorities: Map<int, ThreadPriorityDescriptor>,
    platform: Platform,
)
    requires
        null.ifname_bytes() is None,
        empty.ifname_bytes() == Some(Seq::<u8>::empty()),
        null.buf_size == empty.buf_size,
        null.send_cycle == empty.send_cycle,
        null.sync0_cycle == empty.sync0_cycle,
        null.process_priority == empty.process_priority,
        null.thread_priority == empty.thread_priority,
        null.state_check_interval == empty.state_check_interval,
        null.sync_tolerance == empty.sync_tolerance,
        null.sync_timeout == empty.sync_timeout,
        null.affinity == empty.affinity,
    ensures
        null.converted(priorities, platform) == empty.converted(priorities, platform),
        null.remaining(priorities, platform) == empty.remaining(priorities, platform),
{
    assert(valid_utf8(Seq::<u8>::empty()));
    assert(decode_utf8(Seq::<u8>::empty()) =~= Seq::<char>::empty());
}

/// A record is the default exactly when each of its fields says what the
/// engine's default says: no interface name, a send queue of 16, the default
/// spans, a descriptor of the greatest priority, no core to pin to and,
/// where a process priority class is honored, the class `High`.
pub proof fn lemma_default_field_by_field(
    option: SOEMOption,
    priorities: Map<int, ThreadPriorityDescriptor>,
    platform: Platform,
)
    ensures
        is_default(option, priorities, platform) <==> {
            &&& is_text(option.ifname_bytes())
            &&& text_of(option.ifname_bytes()) == Seq::<char>::empty()
            &&& option.buf_size == 16
            &&& option.state_check_interval == Duration { nanos: 100_000_000 }
            &&& option.sync0_cycle == Duration { nanos: 1_000_000 }
            &&& option.send_cycle == Duration { nanos: 1_000_000 }
            &&& priorities.dom().contains(option.thread_priority.0 as int)
            &&& priorities[option.thread_priority.0 as int] == ThreadPriorityDescriptor::Max
            &&& platform.honors_process_priority() ==> option.process_priority
                == ProcessPriority::High
            &&& option.sync_tolerance == Duration { nanos: 1_000 }
            &&& option.sync_timeout == Duration { nanos: 10_000_000_000 }
            &&& option.affinity < 0
        },
{
}

/// The record that holds the engine's default values, with a null or an
/// empty interface name and a fresh descriptor of the greatest priority, is
/// the default.
pub proof fn lemma_default_record_is_default(
    option: SOEMOption,
    priorities: Map<int, ThreadPriorityDescriptor>,
    platform: Platform,
)
    requires
        option.ifname_bytes() is None || option.ifname_bytes() == Some(Seq::<u8>::empty()),
        option.buf_size == 16,
        option.state_check_interval == (Duration { nanos: 100_000_000 }),
        option.sync0_cycle == (Duration { nanos: 1_000_000 }),
        option.send_cycle == (Duration { nanos: 1_000_000 }),
        priorities.dom().contains(option.thread_priority.0 as int),
        priorities[option.thread_priority.0 as int] == ThreadPriorityDescriptor::Max,
        option.process_priority == ProcessPriority::High,
        option.sync_tolerance == (Duration { nanos: 1_000 }),
        option.sync_timeout == (Duration { nanos: 10_000_000_000 }),
        option.affinity == -1,
    ensures
        is_default(option, priorities, platform),
{
    assert(valid_utf8(Seq::<u8>::empty()));
    assert(decode_utf8(Seq::<u8>::empty()) =~= Seq::<char>::empty());
    lemma_default_field_by_field(option, priorities, platform);
}

} // verus!
