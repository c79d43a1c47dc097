//! Native side of a small host-binding surface: scalar, text, record and
//! sequence functions, a counter handle, a callback invoker, an error bridge,
//! a single-resolution bridge for asynchronous results, and a marshaller
//! between native values and host values.
pub mod arith;
pub mod bridge;
pub mod callback;
pub mod counter;
pub mod errors;
pub mod marshal;
pub mod person;
pub mod text;

pub use arith::{
    add, array_length, async_add, async_divide, async_sum, divide, double_array, get_magic_number,
    maybe_double, sum_all,
};
pub use bridge::{settle_outcome, PendingComputation, Settlement};
pub use callback::{call_with_value, map_and_sum};
pub use counter::Counter;
pub use errors::{
    from_host_exception, to_host_error, CallError, DomainError, Error, HostException,
    MarshalError,
};
pub use person::{create_person, describe_person, greet, greet_optional, Person};
