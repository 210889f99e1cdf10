//! Battery device.

use crate::common::Describe;
use crate::error;
use crate::text::{decimal, equal, number};
use vstd::prelude::*;
use vstd::string::*;

pub mod fetch;

verus! {

/// Whether a battery takes charge or gives it.
#[derive(Debug, PartialEq, Eq, Clone, Copy, Structural)]
pub enum State {
    Charging,
    Discharging,
    Unknown,
}

/// What the power supply reports of a battery's state.
#[derive(Debug, PartialEq, Eq, Clone, Copy, Structural)]
pub enum Status {
    Unknown,
    Charging,
    Discharging,
    Empty,
    Full,
}

/// One look at a battery of the system: what the power supply reports of it.
#[derive(Debug, Clone, PartialEq, Eq)]
pub struct Reading {
    /// The state of charge in percent, fractions cut off.
    pub charge: u8,
    pub status: Status,
    pub model: Option<String>,
    pub serial_number: Option<String>,
}

/// The battery that is watched.
#[derive(Debug, Clone, PartialEq, Eq)]
pub struct Battery {
    pub percentage: u8,
    pub state: State,
    pub model: String,
    pub serial_number: String,
}

/// A battery as the contracts see it.
pub struct BatteryView {
    pub percentage: u8,
    pub state: State,
    pub model: Seq<char>,
    pub serial_number: Seq<char>,
}

impl View for Battery {
    type V = BatteryView;

    open spec fn view(&self) -> BatteryView {
        BatteryView {
            percentage: self.percentage,
            state: self.state,
            model: self.model@,
            serial_number: self.serial_number@,
        }
    }
}

/// Whether `reading` is of a battery of the model `model`.
pub open spec fn answers(reading: Reading, model: Seq<char>) -> bool {
    reading.model matches Some(name) && name@ == model
}

/// Whether the search for `model` goes on after `item`: it is a reading, of another model.
pub open spec fn passes(item: Result<Reading, String>, model: Seq<char>) -> bool {
    item matches Ok(reading) && !answers(reading, model)
}

/// Whether the search for `model` in `batteries` ends at `k`: everything before `k` passes,
/// and `k` is the end or does not pass.
pub open spec fn stops_at(batteries: Seq<Result<Reading, String>>, model: Seq<char>, k: int) -> bool {
    &&& 0 <= k <= batteries.len()
    &&& forall|j: int| 0 <= j < k ==> passes(#[trigger] batteries[j], model)
    &&& k < batteries.len() ==> !passes(batteries[k], model)
}

/// The place in `batteries` at which the search for `model` ends: that of the
/// first item that does not pass, or the end.
pub open spec fn first_stop(batteries: Seq<Result<Reading, String>>, model: Seq<char>) -> int
    decreases batteries.len(),
{
    if batteries.len() == 0 || !passes(batteries[0], model) {
        0
    } else {
        1 + first_stop(batteries.drop_first(), model)
    }
}

/// The search ends at one place only.
pub proof fn lemma_first_stop(batteries: Seq<Result<Reading, String>>, model: Seq<char>, k: int)
    requires
        stops_at(batteries, model, k),
    ensures
        first_stop(batteries, model) == k,
    decreases batteries.len(),
{
    if batteries.len() == 0 || !passes(batteries[0], model) {
        if k > 0 {
            assert(passes(batteries[0], model));
        }
    } else {
        let rest = batteries.drop_first();
        assert(k > 0);
        assert forall|j: int| 0 <= j < k - 1 implies passes(#[trigger] rest[j], model) by {
            assert(passes(batteries[j + 1], model));
        }
        lemma_first_stop(rest, model, k - 1);
    }
}

/// What a battery is made of from `reading`, or what the reading lacks.
pub open spec fn built(reading: Reading) -> Result<BatteryView, error::BatteryDevice> {
    match (reading.model, reading.serial_number) {
        (None, _) => Err(error::BatteryDevice::Model),
        (Some(_), None) => Err(error::BatteryDevice::SerialNumber),
        (Some(model), Some(serial_number)) => Ok(
            BatteryView {
                percentage: reading.charge,
                state: fetch::state_of(reading.status),
                model: model@,
                serial_number: crate::text::trimmed(serial_number@),
            },
        ),
    }
}

/// What the search for `model` in `batteries` gives: the first reading of
/// that model; or the failure that is listed before it; or nothing.
pub open spec fn sought(model: Seq<char>, batteries: Seq<Result<Reading, String>>) -> Result<
    Reading,
    Option<Seq<char>>,
> {
    let k = first_stop(batteries, model);
    if 0 <= k < batteries.len() {
        match batteries[k] {
            Ok(reading) => Ok(reading),
            Err(reason) => Err(Some(reason@)),
        }
    } else {
        Err(None)
    }
}

/// The one item of `batteries`: a reading, or the failure in its place; or
/// nothing where `batteries` does not hold one item and no more.
pub open spec fn single(batteries: Seq<Result<Reading, String>>) -> Result<
    Reading,
    Option<Seq<char>>,
> {
    if batteries.len() == 1 {
        match batteries[0] {
            Ok(reading) => Ok(reading),
            Err(reason) => Err(Some(reason@)),
        }
    } else {
        Err(None)
    }
}

/// The battery to watch, or why there is none.
///
/// With a model, the first battery of that model is taken; without one, the
/// system's only battery. The power supply may have failed as a whole, or
/// for a battery that is listed before the one looked for; and the battery
/// has to tell its model and its serial number.
pub open spec fn chosen(
    model: Option<Seq<char>>,
    batteries: Result<Vec<Result<Reading, String>>, String>,
) -> Result<BatteryView, error::BatteryView> {
    match batteries {
        Err(reason) => Err(error::BatteryView::Routine(reason@)),
        Ok(batteries) => {
            let looked = match model {
                Some(model) => sought(model, batteries@),
                None => single(batteries@),
            };
            match looked {
                Ok(reading) => match built(reading) {
                    Ok(battery) => Ok(battery),
                    Err(lack) => Err(error::BatteryView::Device(lack)),
                },
                Err(Some(reason)) => Err(error::BatteryView::Routine(reason)),
                Err(None) => Err(error::BatteryView::NotFound { model }),
            }
        },
    }
}

/// Whether `item` gives no battery: it is a failure, or a reading that lacks something.
pub open spec fn fails(item: Result<Reading, String>) -> bool {
    match item {
        Ok(reading) => built(reading) is Err,
        Err(_) => true,
    }
}

/// Whether `e` is the error that `item` gives in place of a battery.
pub open spec fn failure_of(item: Result<Reading, String>, e: error::Battery) -> bool {
    match item {
        Ok(reading) => e matches error::Battery::Device(lack) && built(reading) == Err::<
            BatteryView,
            error::BatteryDevice,
        >(lack),
        Err(reason) => e matches error::Battery::Routine(text) && text@ == reason@,
    }
}

impl Reading {
    /// A reading that holds what this one holds.
    pub fn copy(&self) -> (r: Reading)
        ensures
            r == *self,
    {
        Reading {
            charge: self.charge,
            status: self.status,
            model: match &self.model {
                Some(model) => Some(model.clone()),
                None => None,
            },
            serial_number: match &self.serial_number {
                Some(serial_number) => Some(serial_number.clone()),
                None => None,
            },
        }
    }
}

impl Battery {
    /// The battery of the model `model` among `batteries`, the readings of the
    /// system's batteries in the order in which the power supply lists them.
    ///
    /// The first reading of that model is taken. A failure that is listed
    /// before it ends the search, and so does a reading that lacks the model or
    /// the serial number once it is found.
    pub fn new(model: &str, batteries: &Vec<Result<Reading, String>>) -> (r: Result<
        Self,
        error::Battery,
    >)
        ensures
            match sought(model@, batteries@) {
                Ok(reading) => match built(reading) {
                    Ok(battery) => r matches Ok(b) && b@ == battery,
                    Err(lack) => r matches Err(error::Battery::Device(l)) && l == lack,
                },
                Err(None) => r matches Err(error::Battery::NotFound { model: m }) && m.0 matches Some(
                    name,
                ) && name@ == model@,
                Err(Some(reason)) => r matches Err(error::Battery::Routine(text)) && text@
                    == reason,
            },
    {
        match find(model, batteries) {
            Ok(reading) => Battery::try_from(&reading),
            Err(e) => Err(e),
        }
    }

    /// The battery to watch: the first of the model `model`, or the system's
    /// only battery where no model is given. `batteries` holds the readings
    /// of the system's batteries, or why the power supply could not be asked.
    pub fn from_model(
        model: Option<&str>,
        batteries: &Result<Vec<Result<Reading, String>>, String>,
    ) -> (r: Result<Self, error::Battery>)
        ensures
            match chosen(
                match model {
                    Some(model) => Some(model@),
                    None => None,
                },
                *batteries,
            ) {
                Ok(battery) => r matches Ok(b) && b@ == battery,
                Err(reason) => r matches Err(e) && e@ == reason,
            },
    {
        match batteries {
            Err(reason) => Err(error::Battery::Routine(reason.clone())),
            Ok(batteries) => match model {
                None => match one(batteries) {
                    Ok(reading) => Battery::try_from(&reading),
                    Err(e) => Err(e),
                },
                Some(model) => Battery::new(model, batteries),
            },
        }
    }

    /// Takes over what a new look at the battery gave: the charge and the
    /// state. A failed look changes nothing and is handed on.
    pub fn refresh(&mut self, outcome: Result<Reading, String>) -> (r: Result<(), error::Battery>)
        ensures
            match outcome {
                Ok(reading) => r is Ok && final(self)@ == (BatteryView {
                    percentage: reading.charge,
                    state: fetch::state_of(reading.status),
                    ..old(self)@
                }),
                Err(reason) => r == Err::<(), error::Battery>(error::Battery::Routine(reason))
                    && final(self)@ == old(self)@,
            },
    {
        match outcome {
            Ok(reading) => {
                self.refresh_percentage(&reading);
                self.refresh_state(&reading);
                Ok(())
            },
            Err(reason) => Err(error::Battery::Routine(reason)),
        }
    }

    /// Takes over the charge of `reading`, and returns it.
    fn refresh_percentage(&mut self, reading: &Reading) -> (percentage: u8)
        ensures
            percentage == reading.charge,
            final(self)@ == (BatteryView { percentage: reading.charge, ..old(self)@ }),
    {
        let percentage = fetch::percentage(reading);
        self.percentage = percentage;
        percentage
    }

    /// Takes over the state of `reading`, and returns it.
    fn refresh_state(&mut self, reading: &Reading) -> (state: State)
        ensures
            state == fetch::state_of(reading.status),
            final(self)@ == (BatteryView { state: fetch::state_of(reading.status), ..old(self)@ }),
    {
        let state = fetch::state(reading);
        self.state = state;
        state
    }

    /// Makes a battery of a reading, which has to tell the model and the serial number.
    pub fn try_from(reading: &Reading) -> (r: Result<Self, error::Battery>)
        ensures
            match built(*reading) {
                Ok(battery) => r matches Ok(b) && b@ == battery,
                Err(lack) => r matches Err(error::Battery::Device(l)) && l == lack,
            },
    {
        let model = match fetch::model(reading) {
            Ok(model) => model,
            Err(e) => {
                return Err(error::Battery::Device(e));
            },
        };
        let serial_number = match fetch::serial_number(reading) {
            Ok(serial_number) => serial_number,
            Err(e) => {
                return Err(error::Battery::Device(e));
            },
        };
        Ok(
            Battery {
                percentage: fetch::percentage(reading),
                state: fetch::state(reading),
                model,
                serial_number,
            },
        )
    }
}

/// The lines that list the batteries of `batteries`, numbered from one.
pub fn print(batteries: &Vec<Result<Reading, String>>) -> (r: Result<Vec<String>, error::Battery>)
    ensures
        match r {
            Ok(lines) => lines.len() == batteries.len() && forall|i: int|
                0 <= i < batteries.len() ==> (#[trigger] batteries@[i] matches Ok(reading) && built(
                    reading,
                ) matches Ok(battery) && lines@[i]@ == crate::common::numbered_line(
                    i,
                    battery_text(battery),
                )),
            Err(e) => exists|k: int|
                0 <= k < batteries.len() && fails(batteries@[k]) && failure_of(batteries@[k], e)
                    && forall|j: int| 0 <= j < k ==> !fails(#[trigger] batteries@[j]),
        },
{
    let devices = all(batteries)?;
    let mut texts: Vec<String> = Vec::new();
    let mut i: usize = 0;
    while i < devices.len()
        invariant
            i <= devices.len(),
            texts.len() == i,
            forall|j: int| 0 <= j < i ==> (#[trigger] texts@[j])@ == battery_text(devices@[j]@),
        decreases devices.len() - i,
    {
        texts.push(devices[i].describe());
        i += 1;
    }
    Ok(crate::common::print_slice(&texts))
}

/// The batteries of `batteries`, in order; the first item that gives none ends it.
pub fn all(batteries: &Vec<Result<Reading, String>>) -> (r: Result<Vec<Battery>, error::Battery>)
    ensures
        match r {
            Ok(devices) => devices.len() == batteries.len() && forall|i: int|
                0 <= i < batteries.len() ==> (#[trigger] batteries@[i] matches Ok(reading) && built(
                    reading,
                ) == Ok::<BatteryView, error::BatteryDevice>(devices@[i]@)),
            Err(e) => exists|k: int|
                0 <= k < batteries.len() && fails(batteries@[k]) && failure_of(batteries@[k], e)
                    && forall|j: int| 0 <= j < k ==> !fails(#[trigger] batteries@[j]),
        },
{
    let mut devices: Vec<Battery> = Vec::new();
    let mut i: usize = 0;
    while i < batteries.len()
        invariant
            i <= batteries.len(),
            devices.len() == i,
            forall|j: int|
                0 <= j < i ==> (#[trigger] batteries@[j] matches Ok(reading) && built(reading)
                    == Ok::<BatteryView, error::BatteryDevice>(devices@[j]@)),
        decreases batteries.len() - i,
    {
        match &batteries[i] {
            Ok(reading) => {
                match Battery::try_from(reading) {
                    Ok(device) => {
                        devices.push(device);
                    },
                    Err(e) => {
                        assert(fails(batteries@[i as int]));
                        assert(failure_of(batteries@[i as int], e));
                        return Err(e);
                    },
                }
            },
            Err(reason) => {
                let e = error::Battery::Routine(reason.clone());
                assert(fails(batteries@[i as int]));
                assert(failure_of(batteries@[i as int], e));
                return Err(e);
            },
        }
        i += 1;
    }
    Ok(devices)
}

/// The one battery of `batteries`, if it holds one item and no more.
pub fn one(batteries: &Vec<Result<Reading, String>>) -> (r: Result<Reading, error::Battery>)
    ensures
        match single(batteries@) {
            Ok(reading) => r == Ok::<Reading, error::Battery>(reading),
            Err(None) => r matches Err(error::Battery::NotFound { model: m }) && m.0 is None,
            Err(Some(reason)) => r matches Err(error::Battery::Routine(text)) && text@ == reason,
        },
{
    if batteries.len() == 1 {
        match &batteries[0] {
            Ok(reading) => Ok(reading.copy()),
            Err(reason) => Err(error::Battery::Routine(reason.clone())),
        }
    } else {
        Err(error::Battery::NotFound { model: error::Model(None) })
    }
}

/// The place in `batteries` of the reading that is watched, if one is taken:
/// that of the first reading of the model, or of the only reading where no
/// model is given.
pub open spec fn taken(model: Option<Seq<char>>, batteries: Seq<Result<Reading, String>>) -> Option<
    int,
> {
    match model {
        Some(model) => {
            let k = first_stop(batteries, model);
            if 0 <= k < batteries.len() && batteries[k] is Ok {
                Some(k)
            } else {
                None
            }
        },
        None => if batteries.len() == 1 && batteries[0] is Ok {
            Some(0)
        } else {
            None
        },
    }
}

/// The place that is taken is that of the reading from which the battery to
/// watch is made; where no place is taken, there is no reading to make it from.
pub proof fn lemma_taken(model: Option<Seq<char>>, batteries: Seq<Result<Reading, String>>)
    ensures
        ({
            let looked = match model {
                Some(model) => sought(model, batteries),
                None => single(batteries),
            };
            match taken(model, batteries) {
                Some(k) => 0 <= k < batteries.len() && batteries[k] is Ok && looked == Ok::<
                    Reading,
                    Option<Seq<char>>,
                >(batteries[k]->Ok_0),
                None => looked is Err,
            }
        }),
{
}

/// The place in `batteries` of the reading that is watched, if one is
/// taken: the caller keeps the battery at that place to look at it again.
pub fn place(model: Option<&str>, batteries: &Vec<Result<Reading, String>>) -> (r: Option<usize>)
    ensures
        match taken(
            match model {
                Some(model) => Some(model@),
                None => None,
            },
            batteries@,
        ) {
            Some(k) => r == Some(k as usize),
            None => r is None,
        },
{
    match model {
        Some(model) => {
            let k = search(model, batteries);
            if k < batteries.len() && batteries[k].is_ok() {
                Some(k)
            } else {
                None
            }
        },
        None => if batteries.len() == 1 && batteries[0].is_ok() {
            Some(0)
        } else {
            None
        },
    }
}

/// The place in `batteries` at which the search for `model` ends.
fn search(model: &str, batteries: &Vec<Result<Reading, String>>) -> (k: usize)
    ensures
        k == first_stop(batteries@, model@),
        k <= batteries.len(),
{
    let mut i: usize = 0;
    while i < batteries.len()
        invariant
            i <= batteries.len(),
            forall|j: int| 0 <= j < i ==> passes(#[trigger] batteries@[j], model@),
        decreases batteries.len() - i,
    {
        let goes_on = match &batteries[i] {
            Ok(reading) => match &reading.model {
                None => true,
                Some(name) => !equal(name.as_str(), model),
            },
            Err(_) => false,
        };
        if !goes_on {
            proof {
                lemma_first_stop(batteries@, model@, i as int);
            }
            return i;
        }
        i += 1;
    }
    proof {
        lemma_first_stop(batteries@, model@, batteries@.len() as int);
    }
    i
}

/// The first reading of `batteries` that is of the model `model`; a failure
/// that is listed before it ends the search.
pub fn find(model: &str, batteries: &Vec<Result<Reading, String>>) -> (r: Result<
    Reading,
    error::Battery,
>)
    ensures
        match sought(model@, batteries@) {
            Ok(reading) => r == Ok::<Reading, error::Battery>(reading),
            Err(None) => r matches Err(error::Battery::NotFound { model: m }) && m.0 matches Some(
                name,
            ) && name@ == model@,
            Err(Some(reason)) => r matches Err(error::Battery::Routine(text)) && text@ == reason,
        },
{
    let k = search(model, batteries);
    if k < batteries.len() {
        match &batteries[k] {
            Ok(reading) => Ok(reading.copy()),
            Err(reason) => Err(error::Battery::Routine(reason.clone())),
        }
    } else {
        Err(error::Battery::NotFound { model: error::Model(Some(String::from_str(model))) })
    }
}

/// The text of a battery.
pub open spec fn battery_text(battery: BatteryView) -> Seq<char> {
    "Battery Device "@ + battery.serial_number + ": percentage = "@ + decimal(
        battery.percentage as nat,
    ) + "%, state = "@ + battery.state.text() + ", model = \""@ + battery.model + "\""@
}

impl Describe for State {
    open spec fn text(&self) -> Seq<char> {
        match self {
            State::Charging => "Charging"@,
            State::Discharging => "Discharging"@,
            State::Unknown => "Unknown"@,
        }
    }

    fn describe(&self) -> (s: String) {
        match self {
            State::Charging => String::from_str("Charging"),
            State::Discharging => String::from_str("Discharging"),
            State::Unknown => String::from_str("Unknown"),
        }
    }
}

impl Describe for Battery {
    open spec fn text(&self) -> Seq<char> {
        battery_text(self@)
    }

    fn describe(&self) -> (s: String) {
        String::from_str("Battery Device ").concat(self.serial_number.as_str()).concat(
            ": percentage = ",
        ).concat(number(self.percentage as u64).as_str()).concat("%, state = ").concat(
            self.state.describe().as_str(),
        ).concat(", model = \"").concat(self.model.as_str()).concat("\"")
    }
}

} // verus!
