use vstd::prelude::*;

use crate::platform::{new_id, uuid_version};

verus! {

/// A courier's shift: Morning 08:00-16:00, Afternoon 16:00-00:00, Night 00:00-08:00.
#[derive(Debug, Clone, Copy, PartialEq, Eq, Structural)]
pub enum ShiftType {
    MorningShift,
    AfternoonShift,
    NightShift,
}

/// A courier's assignment to a shift on a date.
#[derive(Debug, Clone)]
pub struct CourierShiftAssignment {
    pub id: u128,
    pub courier_id: u128,
    /// YYYY-MM-DD.
    pub shift_date: String,
    pub shift_type: ShiftType,
    pub is_on_break: bool,
}

impl CourierShiftAssignment {
    /// An assignment, not on break.
    pub fn new(courier_id: u128, shift_date: &str, shift_type: ShiftType) -> (s:
        CourierShiftAssignment)
        ensures
            s.id != 0,
            uuid_version(s.id) == 7,
            s.courier_id == courier_id,
            s.shift_date@ == shift_date@,
            s.shift_type == shift_type,
            !s.is_on_break,
    {
        CourierShiftAssignment {
            id: new_id(),
            courier_id,
            shift_date: shift_date.to_owned(),
            shift_type,
            is_on_break: false,
        }
    }

    pub fn set_break_status(&mut self, on_break: bool)
        ensures
            *final(self) == (CourierShiftAssignment { is_on_break: on_break, ..*old(self) }),
    {
        self.is_on_break = on_break;
    }
}

} // verus!
