use vstd::prelude::*;
use crate::text::{signed_decimal, push_signed_decimal, reads_as_signed,
    lemma_signed_decimal_reads_back};

verus! {

/// Which DeathLink behaviour the player chose for this world.
#[derive(Clone, Copy, Debug, PartialEq, Eq, Structural)]
pub enum DeathlinkSetting {
    /// Normal DeathLink: deaths are sent out and received deaths kill.
    DeathLink,
    /// Deaths are sent out, but a received death only hurts.
    HurtLink,
    /// No DeathLink messages are sent or acted on.
    Off,
}

/// The setting that the slot data's number stands for: 0 is off, 1 is
/// DeathLink, 2 is HurtLink, anything else is no setting.
pub open spec fn death_link_for_code(code: int) -> Option<DeathlinkSetting> {
    if code == 0 {
        Some(DeathlinkSetting::Off)
    } else if code == 1 {
        Some(DeathlinkSetting::DeathLink)
    } else if code == 2 {
        Some(DeathlinkSetting::HurtLink)
    } else {
        None
    }
}

/// The error text for a slot data number that is no DeathLink option.
pub open spec fn invalid_death_link_text(code: int) -> Seq<char> {
    "Invalid DL option: "@ + signed_decimal(code)
}

/// Reads the DeathLink setting from the slot data's JSON number, given as the
/// value that the number has as an `i64` (`None` when it has none, as for a
/// fraction or a number past `i64::MAX`; such a number counts as 0). A number
/// that is no valid option gives the error `Invalid DL option: {number}`.
pub fn death_link_from_number(number: Option<i64>) -> (r: Result<DeathlinkSetting, String>)
    ensures
        ({
            let code = match number {
                Some(n) => n as int,
                None => 0,
            };
            match death_link_for_code(code) {
                Some(setting) => r == Ok::<DeathlinkSetting, String>(setting),
                None => r is Err && r->Err_0@ == invalid_death_link_text(code),
            }
        }),
{
    let code: i64 = match number {
        Some(n) => n,
        None => 0,
    };
    if code == 0 {
        Ok(DeathlinkSetting::Off)
    } else if code == 1 {
        Ok(DeathlinkSetting::DeathLink)
    } else if code == 2 {
        Ok(DeathlinkSetting::HurtLink)
    } else {
        let mut text = String::new();
        text.append("Invalid DL option: ");
        push_signed_decimal(&mut text, code);
        Err(text)
    }
}

/// Exactly the codes 0, 1 and 2 are options, each standing for a different
/// setting (0 off, 1 DeathLink, 2 HurtLink); the error for any other code
/// reads `Invalid DL option: ` followed by the code as a signed decimal.
pub proof fn lemma_death_link_codes(code: int, other: int)
    ensures
        death_link_for_code(code) is Some <==> 0 <= code <= 2,
        death_link_for_code(code) == Some(DeathlinkSetting::Off) <==> code == 0,
        death_link_for_code(code) == Some(DeathlinkSetting::DeathLink) <==> code == 1,
        death_link_for_code(code) == Some(DeathlinkSetting::HurtLink) <==> code == 2,
        death_link_for_code(code) is Some && death_link_for_code(code) == death_link_for_code(
            other,
        ) ==> code == other,
        invalid_death_link_text(code).subrange(0, 19) == "Invalid DL option: "@,
        reads_as_signed(invalid_death_link_text(code).skip(19), code),
{
    reveal_strlit("Invalid DL option: ");
    lemma_signed_decimal_reads_back(code);
    assert(invalid_death_link_text(code).subrange(0, 19) =~= "Invalid DL option: "@);
    assert(invalid_death_link_text(code).skip(19) =~= signed_decimal(code));
}

/// The slot data that the server sends for this world on connecting. The
/// versions are kept as the text they are shown with.
#[derive(Debug)]
pub struct Mapping {
    pub generated_version: Option<String>,
    pub client_version: Option<String>,
    pub death_link: DeathlinkSetting,
    pub purple_orb_mode: bool,
    pub devil_trigger_mode: bool,
}

/// The version information that the overlay shows while connected.
#[derive(Debug)]
pub struct OverlayInfo {
    pub client_version: Option<String>,
    pub generated_version: Option<String>,
}

/// A copy of an optional text.
pub fn copy_text(t: &Option<String>) -> (r: Option<String>)
    ensures
        r == *t,
{
    match t {
        Some(s) => Some(s.clone()),
        None => None,
    }
}

impl Mapping {
    /// A field-by-field copy.
    pub fn duplicate(&self) -> (r: Mapping)
        ensures
            r == *self,
    {
        Mapping {
            generated_version: copy_text(&self.generated_version),
            client_version: copy_text(&self.client_version),
            death_link: self.death_link,
            purple_orb_mode: self.purple_orb_mode,
            devil_trigger_mode: self.devil_trigger_mode,
        }
    }
}

impl OverlayInfo {
    /// The overlay information while not connected: no versions known.
    pub open spec fn empty() -> OverlayInfo {
        OverlayInfo { client_version: None, generated_version: None }
    }
}

impl Default for OverlayInfo {
    fn default() -> (r: OverlayInfo)
        ensures
            r == OverlayInfo::empty(),
    {
        OverlayInfo { client_version: None, generated_version: None }
    }
}

} // verus!
