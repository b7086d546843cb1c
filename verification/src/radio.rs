//! The radio catalog, exclusive reservations, and the choice of driver
//! settings for a reserved radio.

use crate::protocol::{
    device_views, RadioDeviceInfo, RadioDeviceView, RadioDriver, RadioRequest, RadioTransportKind,
};
use crate::text::{opt_text, same_text};
use vstd::hash_set::StringHashSet;
use vstd::prelude::*;

verus! {

/// Why a radio cannot be reserved.
#[derive(Debug, Clone, Copy, PartialEq, Eq, Structural)]
pub enum RadioError {
    Unavailable,
    LockPoisoned,
    InUse,
}

impl RadioError {
    /// The refusal in words.
    pub open spec fn text(self) -> Seq<char> {
        match self {
            RadioError::Unavailable => "radio device is unavailable"@,
            RadioError::LockPoisoned => "radio reservation lock poisoned"@,
            RadioError::InUse => "radio device is already in use"@,
        }
    }

    /// The refusal in words.
    pub fn message(&self) -> (message: String)
        ensures
            message@ == self.text(),
    {
        match self {
            RadioError::Unavailable => "radio device is unavailable".to_owned(),
            RadioError::LockPoisoned => "radio reservation lock poisoned".to_owned(),
            RadioError::InUse => "radio device is already in use".to_owned(),
        }
    }
}

/// Where the first device of a name stands, or the length of the list if there
/// is none.
pub open spec fn first_named(devices: Seq<RadioDeviceView>, id: Seq<char>) -> nat
    decreases devices.len(),
{
    if devices.len() == 0 || devices[0].id == id {
        0
    } else {
        1 + first_named(devices.drop_first(), id)
    }
}

/// What `first_named` says of the position it gives.
pub proof fn lemma_first_named(devices: Seq<RadioDeviceView>, id: Seq<char>, at: int)
    requires
        0 <= at <= devices.len(),
        forall|j: int| 0 <= j < at ==> devices[j].id != id,
        at < devices.len() ==> devices[at].id == id,
    ensures
        first_named(devices, id) == at,
    decreases devices.len(),
{
    if at > 0 {
        assert forall|j: int| 0 <= j < at - 1 implies devices.drop_first()[j].id != id by {
            assert(devices[j + 1].id != id);
        }
        lemma_first_named(devices.drop_first(), id, at - 1);
    }
}

/// The state of a host's radios: what is connected, which names are reserved,
/// and whether the reservations can still be trusted.
#[verifier::ext_equal]
pub struct RadioCatalogView {
    pub devices: Seq<RadioDeviceView>,
    pub leased: Set<Seq<char>>,
    pub poisoned: bool,
}

impl RadioCatalogView {
    /// Whether a device is in the catalog.
    pub open spec fn lists(self, id: Seq<char>) -> bool {
        first_named(self.devices, id) < self.devices.len()
    }

    /// What clients see: every device, marked as in use if its name is
    /// reserved, or if the reservations cannot be trusted.
    pub open spec fn advertised(self) -> Seq<RadioDeviceView> {
        self.devices.map_values(
            |d: RadioDeviceView|
                RadioDeviceView { in_use: self.poisoned || self.leased.contains(d.id), ..d },
        )
    }

    /// What an attempt to reserve a device comes to: the place of its entry,
    /// or the reason for the refusal.
    pub open spec fn reservation(self, id: Seq<char>) -> Result<nat, RadioError> {
        if !self.lists(id) {
            Err(RadioError::Unavailable)
        } else if self.poisoned {
            Err(RadioError::LockPoisoned)
        } else if self.leased.contains(id) {
            Err(RadioError::InUse)
        } else {
            Ok(first_named(self.devices, id))
        }
    }

    /// The catalog after an attempt to reserve a device.
    pub open spec fn acquired(self, id: Seq<char>) -> RadioCatalogView {
        if self.reservation(id) is Ok {
            RadioCatalogView { leased: self.leased.insert(id), ..self }
        } else {
            self
        }
    }

    /// The catalog after a device has been given back.
    pub open spec fn released(self, id: Seq<char>) -> RadioCatalogView {
        if self.poisoned {
            self
        } else {
            RadioCatalogView { leased: self.leased.remove(id), ..self }
        }
    }

    /// The catalog once its reservations cannot be trusted.
    pub open spec fn distrusted(self) -> RadioCatalogView {
        RadioCatalogView { poisoned: true, ..self }
    }
}

/// The radios of a host. A radio is reserved before it is opened; if opening
/// fails, the reservation is given back.
pub trait RadioProvider {
    /// What stands behind one place of the catalog. Only the host sees it.
    type Entry;

    /// The state that the other methods speak of.
    spec fn catalog(&self) -> RadioCatalogView;

    /// What stands behind each place of the catalog. Nothing changes it.
    spec fn entries(&self) -> Seq<Self::Entry>;

    /// What clients see.
    fn devices(&self) -> (devices: Vec<RadioDeviceInfo>)
        ensures
            device_views(devices@) == self.catalog().advertised(),
    ;

    /// Reserves a device and tells the place of its entry.
    fn acquire(&mut self, device_id: &str) -> (outcome: Result<usize, RadioError>)
        ensures
            final(self).catalog() == old(self).catalog().acquired(device_id@),
            final(self).entries() == old(self).entries(),
            match outcome {
                Ok(place) => old(self).catalog().reservation(device_id@) == Ok::<nat, RadioError>(
                    place as nat,
                ),
                Err(error) => old(self).catalog().reservation(device_id@) == Err::<nat, RadioError>(
                    error,
                ),
            },
    ;

    /// Gives a device back.
    fn release(&mut self, device_id: &str)
        ensures
            final(self).catalog() == old(self).catalog().released(device_id@),
            final(self).entries() == old(self).entries(),
    ;

    /// Records that a holder of the reservations failed while it changed them.
    fn poison(&mut self)
        ensures
            final(self).catalog() == old(self).catalog().distrusted(),
            final(self).entries() == old(self).entries(),
    ;
}

/// A catalog entry and what its host needs in order to open it.
pub struct RadioProviderEntry<F> {
    pub info: RadioDeviceInfo,
    pub open: F,
}

/// The catalog entries without what only the host may see.
pub open spec fn entry_infos<F>(entries: Seq<RadioProviderEntry<F>>) -> Seq<RadioDeviceView> {
    entries.map_values(|e: RadioProviderEntry<F>| e.info@)
}

/// Any number of radios, each reserved on its own.
pub struct ConfiguredRadioProvider<F> {
    entries: Vec<RadioProviderEntry<F>>,
    in_use: StringHashSet,
    poisoned: bool,
}

impl<F> ConfiguredRadioProvider<F> {
    /// The entries, in the order of the catalog.
    pub closed spec fn entry_list(&self) -> Seq<RadioProviderEntry<F>> {
        self.entries@
    }

    /// The catalog lists exactly the entries.
    pub proof fn lemma_catalog_lists_entries(&self)
        ensures
            self.catalog().devices == entry_infos(self.entry_list()),
    {
    }

    /// A provider with nothing reserved.
    pub fn new(entries: Vec<RadioProviderEntry<F>>) -> (provider: ConfiguredRadioProvider<F>)
        ensures
            provider.entry_list() == entries@,
            provider.catalog() == (RadioCatalogView {
                devices: entry_infos(entries@),
                leased: Set::empty(),
                poisoned: false,
            }),
    {
        ConfiguredRadioProvider { entries, in_use: StringHashSet::new(), poisoned: false }
    }

    /// What the host needs in order to open the entry at a place.
    pub fn factory(&self, place: usize) -> (factory: Option<&F>)
        ensures
            match factory {
                Some(factory) => place < self.entry_list().len() && *factory
                    == self.entry_list()[place as int].open,
                None => place >= self.entry_list().len(),
            },
    {
        if place < self.entries.len() {
            Some(&self.entries[place].open)
        } else {
            None
        }
    }
}

impl<F> RadioProvider for ConfiguredRadioProvider<F> {
    type Entry = RadioProviderEntry<F>;

    open spec fn entries(&self) -> Seq<RadioProviderEntry<F>> {
        self.entry_list()
    }

    closed spec fn catalog(&self) -> RadioCatalogView {
        RadioCatalogView {
            devices: entry_infos(self.entries@),
            leased: self.in_use@,
            poisoned: self.poisoned,
        }
    }

    fn devices(&self) -> (devices: Vec<RadioDeviceInfo>) {
        let mut devices: Vec<RadioDeviceInfo> = Vec::new();
        for i in 0..self.entries.len()
            invariant
                device_views(devices@) == self.catalog().advertised().take(i as int),
                self.catalog().advertised().len() == self.entries@.len(),
        {
            let entry = &self.entries[i];
            let in_use: bool = self.poisoned || self.in_use.contains(entry.info.id.as_str());
            let ghost before = devices@;
            let marked = entry.info.marked(in_use);
            devices.push(marked);
            assert(device_views(devices@) == device_views(before).push(marked@));
            assert(self.catalog().advertised()[i as int] == marked@);
        }
        assert(self.catalog().advertised().take(self.entries@.len() as int)
            == self.catalog().advertised());
        devices
    }

    fn acquire(&mut self, device_id: &str) -> (outcome: Result<usize, RadioError>) {
        let ghost devices = self.catalog().devices;
        let mut place: usize = 0;
        while place < self.entries.len() && !same_text(
            self.entries[place].info.id.as_str(),
            device_id,
        )
            invariant
                place <= self.entries@.len(),
                devices == entry_infos(self.entries@),
                forall|j: int| 0 <= j < place ==> (#[trigger] devices[j]).id != device_id@,
            decreases self.entries@.len() - place,
        {
            place = place + 1;
        }
        proof {
            lemma_first_named(devices, device_id@, place as int);
        }
        if place == self.entries.len() {
            return Err(RadioError::Unavailable);
        }
        if self.poisoned {
            return Err(RadioError::LockPoisoned);
        }
        if !self.in_use.insert(device_id.to_owned()) {
            assert(old(self).in_use@.insert(device_id@) =~= old(self).in_use@);
            return Err(RadioError::InUse);
        }
        Ok(place)
    }

    fn release(&mut self, device_id: &str) {
        if !self.poisoned {
            self.in_use.remove(device_id);
        }
    }

    fn poison(&mut self) {
        self.poisoned = true;
    }
}

/// One radio that is always open.
pub struct FixedRadioProvider<R> {
    device: RadioDeviceInfo,
    radio: R,
    in_use: bool,
    poisoned: bool,
}

impl<R> FixedRadioProvider<R> {
    /// The radio itself.
    pub closed spec fn opened(&self) -> R {
        self.radio
    }

    /// A provider whose radio is free.
    pub fn new(device: RadioDeviceInfo, radio: R) -> (provider: FixedRadioProvider<R>)
        ensures
            provider.opened() == radio,
            provider.catalog() == (RadioCatalogView {
                devices: seq![device@],
                leased: Set::empty(),
                poisoned: false,
            }),
    {
        FixedRadioProvider { device, radio, in_use: false, poisoned: false }
    }

    /// The radio that a successful reservation grants.
    pub fn radio(&self) -> (radio: &R)
        ensures
            *radio == self.opened(),
    {
        &self.radio
    }
}

impl<R> RadioProvider for FixedRadioProvider<R> {
    type Entry = R;

    open spec fn entries(&self) -> Seq<R> {
        seq![self.opened()]
    }

    closed spec fn catalog(&self) -> RadioCatalogView {
        RadioCatalogView {
            devices: seq![self.device@],
            leased: if self.in_use {
                Set::empty().insert(self.device.id@)
            } else {
                Set::empty()
            },
            poisoned: self.poisoned,
        }
    }

    fn devices(&self) -> (devices: Vec<RadioDeviceInfo>) {
        let marked = self.device.marked(self.poisoned || self.in_use);
        let devices = vec![marked];
        assert(device_views(devices@) =~= self.catalog().advertised());
        devices
    }

    fn acquire(&mut self, device_id: &str) -> (outcome: Result<usize, RadioError>) {
        reveal_with_fuel(first_named, 2);
        if !same_text(device_id, self.device.id.as_str()) {
            return Err(RadioError::Unavailable);
        }
        if self.poisoned {
            return Err(RadioError::LockPoisoned);
        }
        if self.in_use {
            return Err(RadioError::InUse);
        }
        self.in_use = true;
        Ok(0)
    }

    fn release(&mut self, device_id: &str) {
        if same_text(device_id, self.device.id.as_str()) && !self.poisoned {
            self.in_use = false;
        }
        assert(self.catalog() =~= old(self).catalog().released(device_id@));
    }

    fn poison(&mut self) {
        self.poisoned = true;
    }
}

/// The model that stands for any CI-V radio.
pub const GENERIC_ICOM_MODEL: &'static str = "CI-V (generic)";

/// The model that stands for any radio with the current Yaesu commands.
pub const GENERIC_YAESU_MODEL: &'static str = "CAT (generic)";

/// The model that stands for any radio with the classic Yaesu commands.
pub const GENERIC_YAESU_CLASSIC_MODEL: &'static str = "classic CAT (generic)";

/// The model that stands for any Kenwood radio.
pub const GENERIC_KENWOOD_MODEL: &'static str = "PC control (generic)";

/// The address under which the host appears on a CI-V bus.
pub const CONTROLLER_ADDRESS: u8 = 0xE0;

/// The model that stands for any radio of a driver, if there is one.
pub open spec fn generic_model(driver: RadioDriver) -> Option<Seq<char>> {
    match driver {
        RadioDriver::IcomCiv => Some(GENERIC_ICOM_MODEL@),
        RadioDriver::YaesuCat => Some(GENERIC_YAESU_MODEL@),
        RadioDriver::YaesuLegacyCat => Some(GENERIC_YAESU_CLASSIC_MODEL@),
        RadioDriver::KenwoodCat => Some(GENERIC_KENWOOD_MODEL@),
        RadioDriver::ElecraftCat => None,
    }
}

/// The speed at which a driver talks unless the client chooses another.
pub open spec fn default_baud_rate(driver: RadioDriver) -> u32 {
    match driver {
        RadioDriver::IcomCiv => 115_200,
        RadioDriver::KenwoodCat => 115_200,
        RadioDriver::YaesuCat => 38_400,
        RadioDriver::YaesuLegacyCat => 4_800,
        RadioDriver::ElecraftCat => 38_400,
    }
}

/// The name of a driver.
pub open spec fn driver_name(driver: RadioDriver) -> Seq<char> {
    match driver {
        RadioDriver::IcomCiv => "IcomCiv"@,
        RadioDriver::YaesuCat => "YaesuCat"@,
        RadioDriver::YaesuLegacyCat => "YaesuLegacyCat"@,
        RadioDriver::KenwoodCat => "KenwoodCat"@,
        RadioDriver::ElecraftCat => "ElecraftCat"@,
    }
}

/// The model that a request names, or the generic model of its driver.
pub open spec fn requested_model(request: RadioRequest) -> Option<Seq<char>> {
    match opt_text(request.model) {
        Some(model) => Some(model),
        None => generic_model(request.driver),
    }
}

/// Everything that opening a radio takes.
#[derive(Debug, PartialEq, Eq)]
pub struct RadioOpenPlan {
    pub model: String,
    pub path: String,
    pub baud_rate: u32,
    pub controller_address: u8,
    pub radio_address: Option<u8>,
}

#[verifier::ext_equal]
pub struct RadioOpenPlanView {
    pub model: Seq<char>,
    pub path: Seq<char>,
    pub baud_rate: u32,
    pub controller_address: u8,
    pub radio_address: Option<u8>,
}

impl View for RadioOpenPlan {
    type V = RadioOpenPlanView;

    open spec fn view(&self) -> RadioOpenPlanView {
        RadioOpenPlanView {
            model: self.model@,
            path: self.path@,
            baud_rate: self.baud_rate,
            controller_address: self.controller_address,
            radio_address: self.radio_address,
        }
    }
}

/// How a radio at a path is opened for a request, given the driver that the
/// requested model belongs to (`None` for an unknown model), or why it is not.
pub open spec fn open_plan(
    path: Seq<char>,
    request: RadioRequest,
    model_driver: Option<RadioDriver>,
) -> Result<RadioOpenPlanView, Seq<char>> {
    match requested_model(request) {
        None => Err("Elecraft requires an explicit model"@),
        Some(model) => match model_driver {
            None => Err("unknown HostBridge radio model: "@ + model),
            Some(driver) => if driver != request.driver {
                Err(
                    "selected driver "@ + driver_name(request.driver) + " does not match model "@
                        + model,
                )
            } else {
                Ok(
                    RadioOpenPlanView {
                        model,
                        path,
                        baud_rate: match request.baud_rate {
                            Some(rate) => rate,
                            None => default_baud_rate(request.driver),
                        },
                        controller_address: CONTROLLER_ADDRESS,
                        radio_address: request.radio_address,
                    },
                )
            },
        },
    }
}

/// Opens the radio behind one host path.
#[derive(Debug, PartialEq, Eq)]
pub struct RadioFactory {
    pub path: String,
}

/// The model that a request names, or the generic model of its driver.
pub fn model_for(request: &RadioRequest) -> (model: Option<String>)
    ensures
        opt_text(model) == requested_model(*request),
{
    match &request.model {
        Some(model) => Some(model.clone()),
        None => match request.driver {
            RadioDriver::IcomCiv => Some(GENERIC_ICOM_MODEL.to_owned()),
            RadioDriver::YaesuCat => Some(GENERIC_YAESU_MODEL.to_owned()),
            RadioDriver::YaesuLegacyCat => Some(GENERIC_YAESU_CLASSIC_MODEL.to_owned()),
            RadioDriver::KenwoodCat => Some(GENERIC_KENWOOD_MODEL.to_owned()),
            RadioDriver::ElecraftCat => None,
        },
    }
}

/// The name of a driver.
pub fn driver_text(driver: RadioDriver) -> (name: &'static str)
    ensures
        name@ == driver_name(driver),
{
    match driver {
        RadioDriver::IcomCiv => "IcomCiv",
        RadioDriver::YaesuCat => "YaesuCat",
        RadioDriver::YaesuLegacyCat => "YaesuLegacyCat",
        RadioDriver::KenwoodCat => "KenwoodCat",
        RadioDriver::ElecraftCat => "ElecraftCat",
    }
}

impl RadioFactory {
    /// Settles how the radio is opened, given the driver that the model of
    /// [`model_for`] belongs to.
    pub fn plan(&self, request: &RadioRequest, model_driver: Option<RadioDriver>) -> (plan: Result<
        RadioOpenPlan,
        String,
    >)
        ensures
            match plan {
                Ok(plan) => open_plan(self.path@, *request, model_driver) == Ok::<
                    RadioOpenPlanView,
                    Seq<char>,
                >(plan@),
                Err(error) => open_plan(self.path@, *request, model_driver) == Err::<
                    RadioOpenPlanView,
                    Seq<char>,
                >(error@),
            },
    {
        let model = match model_for(request) {
            Some(model) => model,
            None => {
                return Err("Elecraft requires an explicit model".to_owned());
            },
        };
        let driver = match model_driver {
            Some(driver) => driver,
            None => {
                let mut error = "unknown HostBridge radio model: ".to_owned();
                error.append(model.as_str());
                return Err(error);
            },
        };
        if driver != request.driver {
            let mut error = "selected driver ".to_owned();
            error.append(driver_text(request.driver));
            error.append(" does not match model ");
            error.append(model.as_str());
            return Err(error);
        }
        let baud_rate: u32 = match request.baud_rate {
            Some(rate) => rate,
            None => match request.driver {
                RadioDriver::IcomCiv | RadioDriver::KenwoodCat => 115_200,
                RadioDriver::YaesuCat => 38_400,
                RadioDriver::YaesuLegacyCat => 4_800,
                RadioDriver::ElecraftCat => 38_400,
            },
        };
        Ok(
            RadioOpenPlan {
                model,
                path: self.path.clone(),
                baud_rate,
                controller_address: CONTROLLER_ADDRESS,
                radio_address: request.radio_address,
            },
        )
    }
}

/// Lists a serial device. Clients see its file name; the path stays with the
/// factory.
pub fn add_radio_entry(
    entries: &mut Vec<RadioProviderEntry<RadioFactory>>,
    file_name: String,
    path: String,
)
    ensures
        final(entries)@.len() == old(entries)@.len() + 1,
        final(entries)@.drop_last() == old(entries)@,
        final(entries)@.last().info@ == (RadioDeviceView {
            id: file_name@,
            label: file_name@,
            transport: RadioTransportKind::UsbSerial,
            in_use: false,
        }),
        final(entries)@.last().open.path@ == path@,
{
    let label = file_name.clone();
    entries.push(
        RadioProviderEntry {
            info: RadioDeviceInfo {
                id: file_name,
                label,
                transport: RadioTransportKind::UsbSerial,
                in_use: false,
            },
            open: RadioFactory { path },
        },
    );
    assert(entries@.drop_last() =~= old(entries)@);
}

/// A reserved radio is refused to everyone else until it is given back.
pub proof fn law_reservation_is_exclusive(catalog: RadioCatalogView, id: Seq<char>)
    requires
        catalog.reservation(id) is Ok,
    ensures
        catalog.acquired(id).reservation(id) == Err::<nat, RadioError>(RadioError::InUse),
{
}

/// Giving a reserved radio back undoes the reservation, so a failed open
/// leaves no trace.
pub proof fn law_release_undoes_acquire(catalog: RadioCatalogView, id: Seq<char>)
    requires
        catalog.reservation(id) is Ok,
    ensures
        catalog.acquired(id).released(id) == catalog,
{
    assert(catalog.acquired(id).released(id).leased =~= catalog.leased);
}

/// A listed radio that has been given back can be reserved again.
pub proof fn law_released_radio_is_free(catalog: RadioCatalogView, id: Seq<char>)
    requires
        catalog.lists(id),
        !catalog.poisoned,
    ensures
        catalog.released(id).reservation(id) is Ok,
{
}

/// Reserving or giving back one radio does not touch another.
pub proof fn law_radios_are_independent(
    catalog: RadioCatalogView,
    id: Seq<char>,
    other: Seq<char>,
)
    requires
        id != other,
    ensures
        catalog.acquired(id).reservation(other) == catalog.reservation(other),
        catalog.released(id).reservation(other) == catalog.reservation(other),
        catalog.acquired(id).leased.contains(other) == catalog.leased.contains(other),
        catalog.released(id).leased.contains(other) == catalog.leased.contains(other),
{
}

/// The first device of a name has that name.
pub proof fn lemma_first_named_holds(devices: Seq<RadioDeviceView>, id: Seq<char>)
    requires
        first_named(devices, id) < devices.len(),
    ensures
        devices[first_named(devices, id) as int].id == id,
    decreases devices.len(),
{
    if devices[0].id != id {
        lemma_first_named_holds(devices.drop_first(), id);
    }
}

/// The place that a reservation tells is that of an entry of the reserved
/// name, so no other radio is opened in its stead.
pub proof fn law_place_leads_to_the_reserved_radio<F>(
    provider: ConfiguredRadioProvider<F>,
    id: Seq<char>,
)
    requires
        provider.catalog().reservation(id) is Ok,
    ensures
        provider.catalog().reservation(id) matches Ok(place) && place < provider.entry_list().len()
            && provider.entry_list()[place as int].info@.id == id,
{
    provider.lemma_catalog_lists_entries();
    lemma_first_named_holds(provider.catalog().devices, id);
}

/// A refused reservation changes nothing.
pub proof fn law_refusal_changes_nothing(catalog: RadioCatalogView, id: Seq<char>)
    requires
        catalog.reservation(id) is Err,
    ensures
        catalog.acquired(id) == catalog,
{
}

/// The catalog shows as free exactly the radios that can be reserved.
pub proof fn law_mark_tells_availability(catalog: RadioCatalogView, place: int)
    requires
        0 <= place < catalog.devices.len(),
    ensures
        catalog.advertised()[place].in_use <==> catalog.reservation(
            catalog.devices[place].id,
        ) is Err,
{
    lemma_listed(catalog.devices, place);
}

/// A device's own place bounds the place of the first device of its name.
pub proof fn lemma_listed(devices: Seq<RadioDeviceView>, place: int)
    requires
        0 <= place < devices.len(),
    ensures
        first_named(devices, devices[place].id) <= place,
    decreases devices.len(),
{
    if place > 0 && devices[0].id != devices[place].id {
        lemma_listed(devices.drop_first(), place - 1);
    }
}

/// Once the reservations cannot be trusted, every radio shows as in use and
/// none can be reserved; giving one back does not change that.
pub proof fn law_distrust_is_final(catalog: RadioCatalogView, id: Seq<char>)
    requires
        catalog.poisoned,
    ensures
        catalog.reservation(id) is Err,
        catalog.released(id) == catalog,
        forall|place: int|
            0 <= place < catalog.devices.len() ==> (
            #[trigger] catalog.advertised()[place]).in_use,
{
}

/// No operation changes which devices are listed or what they are called.
pub proof fn law_catalog_is_stable(catalog: RadioCatalogView, id: Seq<char>)
    ensures
        catalog.acquired(id).devices == catalog.devices,
        catalog.released(id).devices == catalog.devices,
        catalog.distrusted().devices == catalog.devices,
{
}

/// Only listed radios are ever reserved.
pub proof fn law_only_listed_radios_are_reserved(
    catalog: RadioCatalogView,
    id: Seq<char>,
    other: Seq<char>,
)
    requires
        forall|name: Seq<char>| #[trigger]
            catalog.leased.contains(name) ==> catalog.lists(name),
    ensures
        catalog.acquired(id).leased.contains(other) ==> catalog.acquired(id).lists(other),
        catalog.released(id).leased.contains(other) ==> catalog.released(id).lists(other),
{
}

/// What clients see of a catalog does not depend on what the host needs in
/// order to open its radios.
pub proof fn law_paths_stay_on_the_host<F, G>(
    entries: Seq<RadioProviderEntry<F>>,
    others: Seq<RadioProviderEntry<G>>,
    leased: Set<Seq<char>>,
    poisoned: bool,
)
    requires
        entries.len() == others.len(),
        forall|i: int| 0 <= i < entries.len() ==> (#[trigger] entries[i]).info@ == others[i].info@,
    ensures
        (RadioCatalogView { devices: entry_infos(entries), leased, poisoned }).advertised() == (
        RadioCatalogView { devices: entry_infos(others), leased, poisoned }).advertised(),
{
    assert(entry_infos(entries) =~= entry_infos(others));
}

/// The host opens a radio only with the driver that the client chose, and
/// only with settings that the client chose or left to the driver.
pub proof fn law_driver_is_the_clients_choice(
    path: Seq<char>,
    request: RadioRequest,
    model_driver: Option<RadioDriver>,
)
    ensures
        open_plan(path, request, model_driver) matches Ok(plan) ==> {
            &&& model_driver == Some(request.driver)
            &&& Some(plan.model) == requested_model(request)
            &&& request.model matches Some(model) ==> plan.model == model@
            &&& request.baud_rate matches Some(rate) ==> plan.baud_rate == rate
            &&& plan.radio_address == request.radio_address
            &&& plan.path == path
        },
{
}

/// The words for each refusal.
pub proof fn law_radio_refusals_in_words()
    ensures
        RadioError::Unavailable.text() == "radio device is unavailable"@,
        RadioError::LockPoisoned.text() == "radio reservation lock poisoned"@,
        RadioError::InUse.text() == "radio device is already in use"@,
{
}

/// The place of a name in the catalog is its first.
pub proof fn law_first_named_is_the_first(devices: Seq<RadioDeviceView>, id: Seq<char>)
    ensures
        first_named(devices, id) <= devices.len(),
        first_named(devices, id) < devices.len() ==> devices[first_named(devices, id) as int].id
            == id,
        forall|j: int|
            0 <= j < first_named(devices, id) ==> (#[trigger] devices[j]).id != id,
    decreases devices.len(),
{
    if devices.len() > 0 && devices[0].id != id {
        let rest = devices.drop_first();
        law_first_named_is_the_first(rest, id);
        assert forall|j: int| 0 <= j < first_named(devices, id) implies (
        #[trigger] devices[j]).id != id by {
            if j > 0 {
                assert(rest[j - 1] == devices[j]);
            }
        }
    }
}

/// What clients see of the device at each place of the catalog: its own name,
/// label and transport, and whether it is taken. The name that clients see is
/// the one to select it by: it can be reserved exactly if it is shown as free.
pub proof fn law_advertised_radio_can_be_selected(catalog: RadioCatalogView, place: int)
    requires
        0 <= place < catalog.devices.len(),
    ensures
        catalog.advertised().len() == catalog.devices.len(),
        ({
            let shown = catalog.advertised()[place];
            let device = catalog.devices[place];
            &&& shown.id == device.id
            &&& shown.label == device.label
            &&& shown.transport == device.transport
            &&& shown.in_use <==> catalog.poisoned || catalog.leased.contains(device.id)
            &&& catalog.reservation(shown.id) is Ok <==> !shown.in_use
        }),
{
    lemma_listed(catalog.devices, place);
}

/// What an attempt to reserve a name comes to, told by the catalog: the first
/// of these reasons against it, or the first place of that name.
pub proof fn law_reservation_outcome(catalog: RadioCatalogView, id: Seq<char>)
    ensures
        ({
            let listed = exists|j: int|
                0 <= j < catalog.devices.len() && (#[trigger] catalog.devices[j]).id == id;
            let outcome = catalog.reservation(id);
            if !listed {
                outcome == Err::<nat, RadioError>(RadioError::Unavailable)
            } else if catalog.poisoned {
                outcome == Err::<nat, RadioError>(RadioError::LockPoisoned)
            } else if catalog.leased.contains(id) {
                outcome == Err::<nat, RadioError>(RadioError::InUse)
            } else {
                outcome matches Ok(place) && place < catalog.devices.len()
                    && catalog.devices[place as int].id == id && (forall|j: int|
                    0 <= j < place ==> (#[trigger] catalog.devices[j]).id != id)
            }
        }),
{
    law_first_named_is_the_first(catalog.devices, id);
    if exists|j: int| 0 <= j < catalog.devices.len() && (#[trigger] catalog.devices[j]).id == id {
        let j = choose|j: int|
            0 <= j < catalog.devices.len() && (#[trigger] catalog.devices[j]).id == id;
        lemma_listed(catalog.devices, j);
    } else if first_named(catalog.devices, id) < catalog.devices.len() {
        assert(catalog.devices[first_named(catalog.devices, id) as int].id == id);
    }
}

/// What reserving, giving back and distrust do to the reservations: one name
/// is added if it could be reserved, one name is taken away while the
/// reservations are trusted, and nothing else changes.
pub proof fn law_reservations_change_by_one_name(
    catalog: RadioCatalogView,
    id: Seq<char>,
    other: Seq<char>,
)
    ensures
        catalog.acquired(id).leased.contains(other) <==> catalog.leased.contains(other) || (other
            == id && catalog.reservation(id) is Ok),
        !catalog.acquired(id).poisoned <==> !catalog.poisoned,
        catalog.released(id).leased.contains(other) <==> catalog.leased.contains(other) && (other
            != id || catalog.poisoned),
        catalog.released(id).poisoned == catalog.poisoned,
        catalog.distrusted().leased == catalog.leased,
        catalog.distrusted().poisoned,
{
}

/// The catalog of a list of entries shows what each entry says of itself.
pub proof fn law_entries_are_kept<F>(entries: Seq<RadioProviderEntry<F>>, i: int)
    requires
        0 <= i < entries.len(),
    ensures
        entry_infos(entries).len() == entries.len(),
        entry_infos(entries)[i] == entries[i].info@,
{
}

/// The model that is opened: the one that the client names, else the one that
/// stands for any radio of the chosen driver. Elecraft has none of those.
pub proof fn law_requested_model(request: RadioRequest)
    ensures
        request.model matches Some(model) ==> requested_model(request) == Some(model@),
        request.model is None ==> requested_model(request) == match request.driver {
            RadioDriver::IcomCiv => Some("CI-V (generic)"@),
            RadioDriver::YaesuCat => Some("CAT (generic)"@),
            RadioDriver::YaesuLegacyCat => Some("classic CAT (generic)"@),
            RadioDriver::KenwoodCat => Some("PC control (generic)"@),
            RadioDriver::ElecraftCat => None,
        },
{
}

/// A radio is opened exactly if the requested model, named or generic, exists
/// and belongs to the requested driver, whichever driver and model that is.
pub proof fn law_matching_model_is_opened(
    path: Seq<char>,
    request: RadioRequest,
    model_driver: Option<RadioDriver>,
)
    ensures
        open_plan(path, request, model_driver) is Ok <==> (request.model is Some || !(
        request.driver is ElecraftCat)) && model_driver == Some(request.driver),
        requested_model(request) is Some <==> request.model is Some || !(
        request.driver is ElecraftCat),
{
}

/// What a radio is opened with: the requested model, its own path, the host's
/// address on the bus, and the speed and the radio's address that the client
/// chose. Without a chosen speed it is that of the driver.
pub proof fn law_plan_is_what_was_requested(
    path: Seq<char>,
    request: RadioRequest,
    model_driver: Option<RadioDriver>,
)
    ensures
        open_plan(path, request, model_driver) matches Ok(plan) ==> {
            &&& request.model matches Some(model) ==> plan.model == model@
            &&& request.model is None ==> Some(plan.model) == requested_model(request)
            &&& plan.path == path
            &&& plan.controller_address == 0xE0
            &&& plan.radio_address == request.radio_address
            &&& request.baud_rate matches Some(rate) ==> plan.baud_rate == rate
            &&& request.baud_rate is None ==> plan.baud_rate == match request.driver {
                RadioDriver::IcomCiv => 115_200u32,
                RadioDriver::KenwoodCat => 115_200u32,
                RadioDriver::YaesuCat => 38_400u32,
                RadioDriver::YaesuLegacyCat => 4_800u32,
                RadioDriver::ElecraftCat => 38_400u32,
            }
        },
{
}

/// Why a radio is not opened: no model, then an unknown model, then a model of
/// another driver; and the words for it.
pub proof fn law_unusable_model_is_named(
    path: Seq<char>,
    request: RadioRequest,
    model_driver: Option<RadioDriver>,
)
    ensures
        requested_model(request) is None ==> open_plan(path, request, model_driver) == Err::<
            RadioOpenPlanView,
            Seq<char>,
        >("Elecraft requires an explicit model"@),
        requested_model(request) matches Some(model) ==> {
            &&& model_driver is None ==> open_plan(path, request, model_driver) == Err::<
                RadioOpenPlanView,
                Seq<char>,
            >("unknown HostBridge radio model: "@ + model)
            &&& model_driver is Some && model_driver != Some(request.driver) ==> open_plan(
                path,
                request,
                model_driver,
            ) == Err::<RadioOpenPlanView, Seq<char>>(
                "selected driver "@ + (match request.driver {
                    RadioDriver::IcomCiv => "IcomCiv"@,
                    RadioDriver::YaesuCat => "YaesuCat"@,
                    RadioDriver::YaesuLegacyCat => "YaesuLegacyCat"@,
                    RadioDriver::KenwoodCat => "KenwoodCat"@,
                    RadioDriver::ElecraftCat => "ElecraftCat"@,
                }) + " does not match model "@ + model,
            )
        },
{
}

/// A plan is seen as it is.
pub proof fn law_plan_is_kept(plan: RadioOpenPlan)
    ensures
        plan@.model == plan.model@,
        plan@.path == plan.path@,
        plan@.baud_rate == plan.baud_rate,
        plan@.controller_address == plan.controller_address,
        plan@.radio_address == plan.radio_address,
{
}

} // verus!
