//! Start-up decisions of the drive-base ESC bridge, which commands the four wheel ESCs over
//! Cyphal/CAN from the on-board computer.
//!
//! At start-up the bridge validates its node ID and then tells every ESC to hold still by
//! publishing a zero setpoint on each ESC's subject, in three rounds, so that a lost first frame
//! cannot leave a wheel turning.
use vstd::prelude::*;
use canadensis_can::CanNodeId;
use core::convert::TryFrom;

verus! {

/// Number of wheel ESCs driven by the bridge.
pub const NUM_VESCS: usize = 4;

/// Number of rounds of zero setpoints published at start-up.
pub const STARTUP_ZERO_ROUNDS: usize = 3;

/// Number of transfer IDs each subject cycles through.
pub const TRANSFER_IDS: usize = 16;

/// Number of subjects the bridge can publish on.
pub const PUBLISHERS: usize = 16;

/// Number of services the bridge can request.
pub const REQUESTERS: usize = 16;

/// Largest Cyphal subject ID.
pub const MAX_SUBJECT_ID: u16 = 8191;

/// The speed-setpoint subject of ESC `i` (for `0 <= i < 4`): 3050, 3060, 3070, 3080.
pub open spec fn vesc_subject(i: int) -> u16 {
    (3050 + 10 * i) as u16
}

/// The speed-setpoint subjects of the four ESCs.
pub fn vesc_speed_subjects() -> (subjects: [u16; 4])
    ensures
        forall|i: int| 0 <= i < 4 ==> #[trigger] subjects@[i] == vesc_subject(i),
        forall|i: int| 0 <= i < 4 ==> #[trigger] subjects@[i] <= MAX_SUBJECT_ID,
{
    let subjects: [u16; 4] = [3050, 3060, 3070, 3080];
    subjects
}

/// The subjects on which the bridge publishes a zero setpoint at start-up, in order: every
/// ESC's subject once per round, for three rounds.
pub fn startup_zero_publications() -> (order: Vec<u16>)
    ensures
        order@.len() == 12,
        forall|k: int| 0 <= k < 12 ==> #[trigger] order@[k] == vesc_subject(k % 4),
{
    let subjects = vesc_speed_subjects();
    let mut order: Vec<u16> = Vec::new();
    let mut round: usize = 0;
    while round < STARTUP_ZERO_ROUNDS
        invariant
            round <= 3,
            order@.len() == 4 * round,
            forall|i: int| 0 <= i < 4 ==> #[trigger] subjects@[i] == vesc_subject(i),
            forall|k: int| 0 <= k < order@.len() ==> #[trigger] order@[k] == vesc_subject(k % 4),
        decreases 3 - round,
    {
        let mut i: usize = 0;
        while i < NUM_VESCS
            invariant
                i <= 4,
                round < 3,
                order@.len() == 4 * round + i,
                forall|j: int| 0 <= j < 4 ==> #[trigger] subjects@[j] == vesc_subject(j),
                forall|k: int| 0 <= k < order@.len() ==> #[trigger] order@[k] == vesc_subject(k % 4),
            decreases 4 - i,
        {
            let ghost before = order@;
            order.push(subjects[i]);
            assert forall|k: int| 0 <= k < order@.len() implies #[trigger] order@[k] == vesc_subject(k % 4) by {
                if k < before.len() {
                    assert(order@[k] == before[k]);
                } else {
                    assert(k == 4 * round + i);
                    assert(k % 4 == i as int) by (nonlinear_arith)
                        requires k == 4 * round + i, 0 <= i < 4, 0 <= round;
                }
            }
            i = i + 1;
        }
        round = round + 1;
    }
    order
}

/// Why a start-up configuration is refused.
#[derive(Clone, Copy, PartialEq, Eq, Structural, Debug)]
pub enum VescConfigError {
    /// A Cyphal/CAN node ID must lie in 0..=127.
    InvalidNodeId,
}

/// Converts a node ID by calling canadensis_can's `CanNodeId::try_from(u8)`. Claimed: it
/// succeeds exactly for IDs in 0..=127 and then holds the given ID (the crate checks membership
/// in `0..=127` and stores the byte unchanged).
#[verifier::external_body]
fn can_node_id(node_id: u8) -> (id: Option<u8>)
    ensures
        id == (if node_id <= 127 { Some(node_id) } else { None::<u8> }),
{
    match CanNodeId::try_from(node_id) {
        Ok(id) => Some(id.to_u8()),
        Err(_) => None,
    }
}

/// Validates the bridge's Cyphal/CAN node ID.
pub fn validate_node_id(node_id: u8) -> (r: Result<u8, VescConfigError>)
    ensures
        node_id <= 127 ==> r == Ok::<u8, VescConfigError>(node_id),
        node_id > 127 ==> r == Err::<u8, VescConfigError>(VescConfigError::InvalidNodeId),
{
    match can_node_id(node_id) {
        Some(id) => Ok(id),
        None => Err(VescConfigError::InvalidNodeId),
    }
}

/// The four ESC subjects are 3050, 3060, 3070 and 3080, all distinct valid subject IDs.
pub proof fn lemma_vesc_subjects_law(i: int, j: int)
    requires
        0 <= i < 4,
        0 <= j < 4,
    ensures
        i == 0 ==> vesc_subject(i) == 3050,
        i == 1 ==> vesc_subject(i) == 3060,
        i == 2 ==> vesc_subject(i) == 3070,
        i == 3 ==> vesc_subject(i) == 3080,
        i != j ==> vesc_subject(i) != vesc_subject(j),
        vesc_subject(i) <= 8191,
{
}

} // verus!
