//! What one poll of the balance endpoint yields.

use vstd::prelude::*;
use vstd::string::StringExecFns;

verus! {

/// Root of the campus services site.
pub const BASE_URL: &'static str = "https://online.uestc.edu.cn/site";

/// One reading of a room's electricity account. Money and energy are whole
/// hundredths (of a yuan, of a kilowatt-hour), so `1444` stands for `14.44`.
#[derive(Debug, Clone, PartialEq, Eq)]
pub struct PowerInfo {
    /// Return code of the endpoint.
    pub code: i32,
    /// Message that came with the return code.
    pub message: String,
    /// Remaining energy, in hundredths of a kilowatt-hour.
    pub remaining_energy: i64,
    /// Remaining money, in hundredths of a yuan.
    pub remaining_money: i64,
    /// Room number in the metering system.
    pub meter_room_id: String,
    /// Room name as shown to people.
    pub room_display_name: String,
    /// Logical id of the room.
    pub room_id: String,
    /// Id of the building.
    pub building_id: String,
    /// Id of the campus.
    pub campus_id: String,
    /// Door number.
    pub room_number: String,
}

/// A reading as a mathematical value: every text field as its characters.
pub struct PowerInfoView {
    pub code: i32,
    pub message: Seq<char>,
    pub remaining_energy: i64,
    pub remaining_money: i64,
    pub meter_room_id: Seq<char>,
    pub room_display_name: Seq<char>,
    pub room_id: Seq<char>,
    pub building_id: Seq<char>,
    pub campus_id: Seq<char>,
    pub room_number: Seq<char>,
}

impl View for PowerInfo {
    type V = PowerInfoView;

    open spec fn view(&self) -> PowerInfoView {
        PowerInfoView {
            code: self.code,
            message: self.message@,
            remaining_energy: self.remaining_energy,
            remaining_money: self.remaining_money,
            meter_room_id: self.meter_room_id@,
            room_display_name: self.room_display_name@,
            room_id: self.room_id@,
            building_id: self.building_id@,
            campus_id: self.campus_id@,
            room_number: self.room_number@,
        }
    }
}

impl PowerInfo {
    /// A copy that views the same.
    pub fn duplicate(&self) -> (copy: PowerInfo)
        ensures
            copy@ == self@,
    {
        PowerInfo {
            code: self.code,
            message: self.message.clone(),
            remaining_energy: self.remaining_energy,
            remaining_money: self.remaining_money,
            meter_room_id: self.meter_room_id.clone(),
            room_display_name: self.room_display_name.clone(),
            room_id: self.room_id.clone(),
            building_id: self.building_id.clone(),
            campus_id: self.campus_id.clone(),
            room_number: self.room_number.clone(),
        }
    }
}

/// Envelope in which the endpoint wraps its answers.
#[derive(Debug)]
pub struct ApiResponse<T> {
    /// Error number; zero on success.
    pub error: i32,
    /// Message that came with the error number.
    pub message: String,
    /// The payload, if the endpoint sent one.
    pub data: Option<T>,
}

impl<T> ApiResponse<T> {
    /// Unwraps the payload, dropping the envelope.
    pub fn into_data(self) -> (data: Option<T>)
        ensures
            data == self.data,
    {
        self.data
    }
}

/// Address of the endpoint that reports a room's balance.
pub fn bedroom_url() -> (url: String)
    ensures
        url@ == BASE_URL@ + "/bedroom"@,
{
    let base = String::from_str(BASE_URL);
    base.concat("/bedroom")
}

} // verus!
