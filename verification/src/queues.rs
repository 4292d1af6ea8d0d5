//! The task queues that background workers listen on.

use vstd::prelude::*;
use vstd::string::*;

use crate::text::str_equal;

verus! {

/// A worker task queue.
#[derive(Debug, Clone, Copy, PartialEq, Eq, Structural)]
pub enum QueueName {
    High,
    Default,
    Heavy,
}

/// The task-queue name of a queue.
pub open spec fn queue_name_text(queue: QueueName) -> Seq<char> {
    match queue {
        QueueName::High => "high"@,
        QueueName::Default => "default"@,
        QueueName::Heavy => "heavy"@,
    }
}

/// The queue a name selects, if it names one.
pub open spec fn queue_from_text(text: Seq<char>) -> Option<QueueName> {
    if text == "high"@ {
        Some(QueueName::High)
    } else if text == "default"@ {
        Some(QueueName::Default)
    } else if text == "heavy"@ {
        Some(QueueName::Heavy)
    } else {
        None
    }
}

impl QueueName {
    /// The task-queue name of this queue.
    pub fn as_task_queue(self) -> (r: &'static str)
        ensures
            r@ == queue_name_text(self),
    {
        match self {
            QueueName::High => "high",
            QueueName::Default => "default",
            QueueName::Heavy => "heavy",
        }
    }

    /// The queue that `value` names; any other text is refused with
    /// "unsupported queue".
    pub fn parse(value: &str) -> (r: Result<QueueName, &'static str>)
        ensures
            match queue_from_text(value@) {
                Some(q) => r == Ok::<QueueName, &'static str>(q),
                None => r is Err && r->Err_0@ == "unsupported queue"@,
            },
    {
        if str_equal(value, "high") {
            Ok(QueueName::High)
        } else if str_equal(value, "default") {
            Ok(QueueName::Default)
        } else if str_equal(value, "heavy") {
            Ok(QueueName::Heavy)
        } else {
            Err("unsupported queue")
        }
    }
}

/// The queue a worker serves: the one its argument names, the default
/// queue when there is no argument, and the parse error otherwise.
pub fn select_queue(argument: Option<&str>) -> (r: Result<QueueName, &'static str>)
    ensures
        match argument {
            None => r == Ok::<QueueName, &'static str>(QueueName::Default),
            Some(a) => match queue_from_text(a@) {
                Some(q) => r == Ok::<QueueName, &'static str>(q),
                None => r is Err && r->Err_0@ == "unsupported queue"@,
            },
        },
{
    match argument {
        None => Ok(QueueName::Default),
        Some(a) => QueueName::parse(a),
    }
}

impl std::str::FromStr for QueueName {
    type Err = &'static str;

    fn from_str(value: &str) -> (r: Result<QueueName, &'static str>)
        ensures
            match queue_from_text(value@) {
                Some(q) => r == Ok::<QueueName, &'static str>(q),
                None => r is Err && r->Err_0@ == "unsupported queue"@,
            },
    {
        QueueName::parse(value)
    }
}

/// Parsing the task-queue name of a queue gives that queue back.
pub proof fn lemma_queue_round_trip(queue: QueueName)
    ensures
        queue_from_text(queue_name_text(queue)) == Some(queue),
{
    reveal_strlit("high");
    reveal_strlit("default");
    reveal_strlit("heavy");
    assert("high"@.len() == 4);
    assert("default"@.len() == 7);
    assert("heavy"@.len() == 5);
}

} // verus!
