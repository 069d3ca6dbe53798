//! Keeping the persisted state in flash: one fixed region at the top of the
//! chip, erased and written as a whole.

use vstd::prelude::*;
use crate::state::{CurrentWeather, PersistedState};

verus! {

/// Size of the flash chip in bytes.
pub const FLASH_BYTES: u32 = 0x200000;

/// Size of the region that holds the state: one erase sector.
pub const STATE_REGION_BYTES: u32 = 0x1000;

/// Where the region starts: it is the last sector of the chip.
pub const STATE_OFFSET: u32 = FLASH_BYTES - STATE_REGION_BYTES;

/// The most bytes the state may take when written out.
pub const STATE_BUFFER_BYTES: usize = 128;

/// The state written out in at most `capacity` bytes, or `None` when it does
/// not fit.
pub uninterp spec fn encoded_state(state: PersistedState, capacity: usize) -> Option<Seq<u8>>;

/// The state that `bytes` spell, or `None` when they spell none.
pub uninterp spec fn decoded_state(bytes: Seq<u8>) -> Option<PersistedState>;

/// `postcard::to_slice` on the three fields of the state, into a buffer of
/// `capacity` bytes: the bytes that were used, or `None` on any error.
#[verifier::external_body]
fn encode_state(state: &PersistedState, capacity: usize) -> (bytes: Option<Vec<u8>>)
    requires
        capacity <= STATE_REGION_BYTES,
    ensures
        bytes matches Some(written) ==> encoded_state(*state, capacity) == Some(written@),
        bytes is None ==> encoded_state(*state, capacity) is None,
{
    let weather = match state.weather {
        Some(report) => Some((report.temperature, report.weathercode)),
        None => None,
    };
    let mut buffer = vec![0u8; capacity];
    match postcard::to_slice(&(state.image, state.networks_seen, weather), &mut buffer) {
        Ok(used) => Some(used.to_vec()),
        Err(_) => None,
    }
}

/// `postcard::from_bytes` for the three fields of the state: the state that
/// was read, or `None` on any error.
#[verifier::external_body]
fn decode_state(bytes: &[u8]) -> (state: Option<PersistedState>)
    ensures
        state == decoded_state(bytes@),
{
    match postcard::from_bytes::<(u8, u32, Option<(i16, u8)>)>(bytes) {
        Ok((image, networks_seen, weather)) => {
            let weather = match weather {
                Some((temperature, weathercode)) => Some(CurrentWeather { temperature, weathercode }),
                None => None,
            };
            Some(PersistedState { image, networks_seen, weather })
        },
        Err(_) => None,
    }
}

/// What to do to the flash to store the state.
#[derive(PartialEq, Eq, Debug)]
pub struct SavePlan {
    /// Start of the range to erase first.
    pub erase_from: u32,
    /// End of the range to erase, exclusive.
    pub erase_to: u32,
    /// Where to write afterwards.
    pub write_at: u32,
    /// What to write.
    pub bytes: Vec<u8>,
}

/// Whether `plan` stores `bytes` in the state region: the whole region is
/// erased, and the bytes are written at its start.
pub open spec fn stores(plan: SavePlan, bytes: Seq<u8>) -> bool {
    &&& plan.erase_from == STATE_OFFSET
    &&& plan.erase_to == FLASH_BYTES
    &&& plan.write_at == STATE_OFFSET
    &&& plan.bytes@ == bytes
}

/// Plans the write of a state that was written out as `encoded`. A state that
/// could not be written out, or that takes more than `STATE_BUFFER_BYTES`, is
/// not stored: what is in flash stays.
pub fn plan_save(encoded: Option<Vec<u8>>) -> (plan: Option<SavePlan>)
    ensures
        plan is Some <==> (encoded is Some && encoded->0@.len() <= STATE_BUFFER_BYTES),
        plan matches Some(p) ==> stores(p, encoded->0@),
{
    match encoded {
        Some(bytes) => {
            if bytes.len() > STATE_BUFFER_BYTES {
                return None;
            }
            Some(
                SavePlan {
                    erase_from: STATE_OFFSET,
                    erase_to: STATE_OFFSET + STATE_REGION_BYTES,
                    write_at: STATE_OFFSET,
                    bytes,
                },
            )
        },
        None => None,
    }
}

/// Plans the write of `state` to flash; `None` when the state does not fit
/// the buffer, in which case nothing is to be erased or written.
pub fn save_state(state: &PersistedState) -> (plan: Option<SavePlan>)
    ensures
        plan is Some <==> (encoded_state(*state, STATE_BUFFER_BYTES) is Some && encoded_state(
            *state,
            STATE_BUFFER_BYTES,
        )->0.len() <= STATE_BUFFER_BYTES),
        plan matches Some(p) ==> stores(p, encoded_state(*state, STATE_BUFFER_BYTES)->0),
{
    plan_save(encode_state(state, STATE_BUFFER_BYTES))
}

/// Where to read the stored state from, and how many bytes.
pub fn load_request() -> (request: (u32, usize))
    ensures
        request == (STATE_OFFSET, STATE_BUFFER_BYTES),
{
    (STATE_OFFSET, STATE_BUFFER_BYTES)
}

/// The state that was read back: `read` holds the bytes of the region, or
/// `None` when the flash could not be read.
pub fn load_state(read: Option<&[u8]>) -> (state: Option<PersistedState>)
    ensures
        state == (match read {
            Some(bytes) => decoded_state(bytes@),
            None => None,
        }),
{
    match read {
        Some(bytes) => decode_state(bytes),
        None => None,
    }
}

} // verus!
