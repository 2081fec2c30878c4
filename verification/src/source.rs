//! Event sources: where the devices are looked for, and what a failed read
//! means.

use vstd::prelude::*;

verus! {

/// Why a read failed.
#[derive(Clone, Copy, Debug, PartialEq, Eq, Structural)]
pub enum ReadFailure {
    /// The device no longer exists.
    NoDevice,
    /// The descriptor is no longer valid.
    BadHandle,
    /// Anything else; the next read may succeed.
    Transient,
}

impl ReadFailure {
    /// Whether the failure means that the device is gone.
    pub open spec fn spec_is_terminal(self) -> bool {
        self == ReadFailure::NoDevice || self == ReadFailure::BadHandle
    }

    /// Whether the failure means that the device is gone.
    #[verifier::when_used_as_spec(spec_is_terminal)]
    pub fn is_terminal(self) -> (r: bool)
        ensures
            r == self.spec_is_terminal(),
    {
        match self {
            ReadFailure::NoDevice => true,
            ReadFailure::BadHandle => true,
            ReadFailure::Transient => false,
        }
    }
}

/// The operating system's error number for "no such device".
pub const ENODEV: i32 = 19;

/// The operating system's error number for "bad file descriptor".
pub const EBADF: i32 = 9;

/// The kind of a failed read, from the operating system's error number, if
/// the error carries one, and from whether the error is of the kind "not
/// found".
pub open spec fn read_failure(os_error: Option<i32>, not_found: bool) -> ReadFailure {
    if os_error == Some(ENODEV) {
        ReadFailure::NoDevice
    } else if os_error == Some(EBADF) {
        ReadFailure::BadHandle
    } else if not_found {
        ReadFailure::NoDevice
    } else {
        ReadFailure::Transient
    }
}

/// Tells a vanished device from a passing error.
pub fn classify_read_error(os_error: Option<i32>, not_found: bool) -> (failure: ReadFailure)
    ensures
        failure == read_failure(os_error, not_found),
{
    match os_error {
        Some(number) => {
            if number == ENODEV {
                return ReadFailure::NoDevice;
            }
            if number == EBADF {
                return ReadFailure::BadHandle;
            }
        },
        None => {},
    }
    if not_found {
        ReadFailure::NoDevice
    } else {
        ReadFailure::Transient
    }
}

/// The character of the digit `d`.
pub open spec fn digit(d: nat) -> char {
    ('0' as u8 + d) as char
}

/// `n` written in decimal.
pub open spec fn decimal(n: nat) -> Seq<char>
    decreases n,
{
    if n < 10 {
        seq![digit(n)]
    } else {
        decimal(n / 10).push(digit(n % 10))
    }
}

/// The path of the device node with this number.
pub open spec fn device_path(number: nat) -> Seq<char> {
    "/dev/input/event"@ + decimal(number)
}

/// The highest device number that is looked for.
pub const LAST_DEVICE: usize = 10;

/// The device nodes to open at startup, in the order in which to try them:
/// from number 10 down to number 0. A node that does not exist is skipped;
/// the nodes that open get their tokens in this order.
pub fn candidate_paths() -> (paths: Vec<&'static str>)
    ensures
        paths@.len() == LAST_DEVICE + 1,
        forall|i: int| 0 <= i <= LAST_DEVICE ==> (#[trigger] paths@[i])@ == device_path((LAST_DEVICE - i) as nat),
{
    proof {
        reveal_strlit("/dev/input/event");
        reveal_strlit("/dev/input/event10");
        reveal_strlit("/dev/input/event9");
        reveal_strlit("/dev/input/event8");
        reveal_strlit("/dev/input/event7");
        reveal_strlit("/dev/input/event6");
        reveal_strlit("/dev/input/event5");
        reveal_strlit("/dev/input/event4");
        reveal_strlit("/dev/input/event3");
        reveal_strlit("/dev/input/event2");
        reveal_strlit("/dev/input/event1");
        reveal_strlit("/dev/input/event0");
        assert(decimal(10) =~= seq!['1', '0']) by {
            assert(decimal(1) =~= seq!['1']);
        }
        assert("/dev/input/event10"@ =~= device_path(10));
        assert("/dev/input/event9"@ =~= device_path(9));
        assert("/dev/input/event8"@ =~= device_path(8));
        assert("/dev/input/event7"@ =~= device_path(7));
        assert("/dev/input/event6"@ =~= device_path(6));
        assert("/dev/input/event5"@ =~= device_path(5));
        assert("/dev/input/event4"@ =~= device_path(4));
        assert("/dev/input/event3"@ =~= device_path(3));
        assert("/dev/input/event2"@ =~= device_path(2));
        assert("/dev/input/event1"@ =~= device_path(1));
        assert("/dev/input/event0"@ =~= device_path(0));
    }
    vec![
        "/dev/input/event10",
        "/dev/input/event9",
        "/dev/input/event8",
        "/dev/input/event7",
        "/dev/input/event6",
        "/dev/input/event5",
        "/dev/input/event4",
        "/dev/input/event3",
        "/dev/input/event2",
        "/dev/input/event1",
        "/dev/input/event0",
    ]
}

} // verus!
