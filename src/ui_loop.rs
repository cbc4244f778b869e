use vstd::prelude::*;

verus! {

/// What the render loop receives: a terminal input event, or a redraw tick.
pub enum Event<I> {
    Input(I),
    Tick,
}

/// A key press, as the terminal reports it.
#[derive(Clone, Copy, Debug, PartialEq, Eq, Structural)]
pub enum Key {
    Backspace,
    Left,
    Right,
    Up,
    Down,
    Home,
    End,
    PageUp,
    PageDown,
    BackTab,
    Delete,
    Insert,
    F(u8),
    Char(char),
    Alt(char),
    Ctrl(char),
    Null,
    Esc,
}

/// The settings of the input multiplexer.
#[derive(Clone, Copy, Debug, PartialEq, Eq, Structural)]
pub struct Config {
    /// The key that stops the input producer.
    pub exit_key: Key,
    /// The time between two ticks, in milliseconds.
    pub tick_rate_ms: u64,
}

/// A producer runs until it stops, and never runs again.
#[derive(Clone, Copy, Debug, PartialEq, Eq, Structural)]
pub enum ProducerState {
    Running,
    Stopped,
}

/// The decisions of the thread that reads terminal input.
pub struct InputProducer {
    pub state: ProducerState,
    pub exit_key: Key,
}

impl InputProducer {
    pub fn new(cfg: Config) -> (r: InputProducer)
        ensures
            r.state == ProducerState::Running,
            r.exit_key == cfg.exit_key,
    {
        InputProducer { state: ProducerState::Running, exit_key: cfg.exit_key }
    }

    /// Decides on one input event, `key` being its key where it is a key
    /// press: forward it (true), or not. The exit key stops the producer and
    /// is not forwarded; a stopped producer forwards nothing.
    pub fn on_input(&mut self, key: Option<Key>) -> (forward: bool)
        ensures
            final(self).exit_key == old(self).exit_key,
            forward == forwards(old(self).state, old(self).exit_key, key),
            final(self).state == (if forward {
                ProducerState::Running
            } else {
                ProducerState::Stopped
            }),
    {
        let is_exit = match key {
            Some(k) => k == self.exit_key,
            None => false,
        };
        if self.state == ProducerState::Stopped || is_exit {
            self.state = ProducerState::Stopped;
            false
        } else {
            true
        }
    }

    /// A failed send means that the consumer has gone away: stop.
    pub fn on_sent(&mut self, delivered: bool)
        ensures
            final(self).exit_key == old(self).exit_key,
            final(self).state == (if delivered {
                old(self).state
            } else {
                ProducerState::Stopped
            }),
    {
        if !delivered {
            self.state = ProducerState::Stopped;
        }
    }

    pub fn is_running(&self) -> (r: bool)
        ensures
            r == (self.state == ProducerState::Running),
    {
        self.state == ProducerState::Running
    }
}

/// The decisions of the thread that emits ticks.
pub struct TickProducer {
    pub state: ProducerState,
}

impl TickProducer {
    pub fn new() -> (r: TickProducer)
        ensures
            r.state == ProducerState::Running,
    {
        TickProducer { state: ProducerState::Running }
    }

    /// Whether to emit the next tick: while running.
    pub fn on_tick(&self) -> (emit: bool)
        ensures
            emit == (self.state == ProducerState::Running),
    {
        self.state == ProducerState::Running
    }

    /// A failed send means that the consumer has gone away: stop.
    pub fn on_sent(&mut self, delivered: bool)
        ensures
            final(self).state == (if delivered {
                old(self).state
            } else {
                ProducerState::Stopped
            }),
    {
        if !delivered {
            self.state = ProducerState::Stopped;
        }
    }
}

/// Whether the input producer forwards an event with key `key`.
pub open spec fn forwards(state: ProducerState, exit_key: Key, key: Option<Key>) -> bool {
    state == ProducerState::Running && key != Some(exit_key)
}

/// The forwarding decisions of an input producer that starts in `state` and
/// sees the events with keys `keys`, in order.
pub open spec fn input_decisions(state: ProducerState, exit_key: Key, keys: Seq<Option<Key>>) -> Seq<
    bool,
>
    decreases keys.len(),
{
    if keys.len() == 0 {
        seq![]
    } else {
        let f = forwards(state, exit_key, keys[0]);
        let next = if f {
            ProducerState::Running
        } else {
            ProducerState::Stopped
        };
        seq![f] + input_decisions(next, exit_key, keys.drop_first())
    }
}

proof fn lemma_stopped_forwards_nothing(exit_key: Key, keys: Seq<Option<Key>>)
    ensures
        input_decisions(ProducerState::Stopped, exit_key, keys).len() == keys.len(),
        forall|j: int|
            0 <= j < keys.len() ==> !#[trigger] input_decisions(
                ProducerState::Stopped,
                exit_key,
                keys,
            )[j],
    decreases keys.len(),
{
    if keys.len() > 0 {
        lemma_stopped_forwards_nothing(exit_key, keys.drop_first());
        let rest = input_decisions(ProducerState::Stopped, exit_key, keys.drop_first());
        assert forall|j: int| 0 <= j < keys.len() implies !#[trigger] input_decisions(
            ProducerState::Stopped,
            exit_key,
            keys,
        )[j] by {
            if j > 0 {
                assert(input_decisions(ProducerState::Stopped, exit_key, keys)[j] == rest[j - 1]);
            }
        }
    }
}

/// A running input producer forwards exactly the events before the first
/// exit key, in order, and none from the exit key on. Each step is the one
/// `InputProducer::on_input` takes.
pub proof fn lemma_input_forwards_until_exit(exit_key: Key, keys: Seq<Option<Key>>, i: int)
    requires
        0 <= i <= keys.len(),
        forall|j: int| 0 <= j < i ==> keys[j] != Some(exit_key),
        i < keys.len() ==> keys[i] == Some(exit_key),
    ensures
        input_decisions(ProducerState::Running, exit_key, keys).len() == keys.len(),
        forall|j: int|
            0 <= j < keys.len() ==> #[trigger] input_decisions(
                ProducerState::Running,
                exit_key,
                keys,
            )[j] == (j < i),
    decreases keys.len(),
{
    if keys.len() > 0 {
        let d = input_decisions(ProducerState::Running, exit_key, keys);
        if i == 0 {
            lemma_stopped_forwards_nothing(exit_key, keys.drop_first());
            let rest = input_decisions(ProducerState::Stopped, exit_key, keys.drop_first());
            assert forall|j: int| 0 <= j < keys.len() implies #[trigger] d[j] == (j < i) by {
                if j > 0 {
                    assert(d[j] == rest[j - 1]);
                }
            }
        } else {
            assert forall|j: int| 0 <= j < i - 1 implies keys.drop_first()[j] != Some(exit_key) by {
                assert(keys.drop_first()[j] == keys[j + 1]);
            }
            lemma_input_forwards_until_exit(exit_key, keys.drop_first(), i - 1);
            let rest = input_decisions(ProducerState::Running, exit_key, keys.drop_first());
            assert forall|j: int| 0 <= j < keys.len() implies #[trigger] d[j] == (j < i) by {
                if j > 0 {
                    assert(d[j] == rest[j - 1]);
                }
            }
        }
    }
}

/// Once the input producer sees the exit key it forwards neither that event
/// nor any later one.
pub proof fn lemma_exit_key_stops_input(
    state: ProducerState,
    exit_key: Key,
    keys: Seq<Option<Key>>,
    i: int,
)
    requires
        0 <= i < keys.len(),
        keys[i] == Some(exit_key),
    ensures
        input_decisions(state, exit_key, keys).len() == keys.len(),
        forall|j: int| i <= j < keys.len() ==> !#[trigger] input_decisions(state, exit_key, keys)[j],
    decreases keys.len(),
{
    let f = forwards(state, exit_key, keys[0]);
    let next = if f {
        ProducerState::Running
    } else {
        ProducerState::Stopped
    };
    let rest = input_decisions(next, exit_key, keys.drop_first());
    if i == 0 {
        lemma_stopped_forwards_nothing(exit_key, keys.drop_first());
    } else {
        lemma_exit_key_stops_input(next, exit_key, keys.drop_first(), i - 1);
    }
    assert forall|j: int| i <= j < keys.len() implies !#[trigger] input_decisions(
        state,
        exit_key,
        keys,
    )[j] by {
        if j > 0 {
            assert(input_decisions(state, exit_key, keys)[j] == rest[j - 1]);
        }
    }
}

} // verus!
