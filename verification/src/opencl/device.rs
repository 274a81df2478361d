//! The GPUs that the OpenCL loader exposes, most preferred first.

use vstd::prelude::*;
use vstd::string::StringExecFns;

use crate::text::{
    ascii_lower, ascii_lower_chars, contains, contains_text, contains_word, decimal_text, has_word,
    law_lower_case_finds_any_case, mentions, push_decimal,
};

verus! {

/// One GPU exposed by the system OpenCL loader.
#[derive(Debug, Clone, PartialEq, Eq)]
pub struct OpenClDeviceInfo {
    /// Logical index under which a runtime is created for the device.
    pub index: usize,
    pub name: String,
    pub vendor: String,
    pub platform: String,
    pub supports_fp16: bool,
}

/// What a driver answered about one of its GPUs; nothing where it failed to
/// answer.
pub struct DeviceAnswers {
    pub name: Option<String>,
    pub vendor: Option<String>,
    pub extensions: Option<String>,
}

/// What a platform answered about itself and its GPUs.
pub struct PlatformAnswers {
    pub name: Option<String>,
    pub devices: Vec<DeviceAnswers>,
}

/// A GPU and where it was found.
pub struct OpenClDevice {
    pub info: OpenClDeviceInfo,
    /// The position among the GPUs of all platforms, in the order of discovery.
    pub device: usize,
}

/// What is known of a GPU, as a value.
#[verifier::ext_equal]
pub struct DeviceView {
    pub name: Seq<char>,
    pub vendor: Seq<char>,
    pub platform: Seq<char>,
    pub supports_fp16: bool,
}

impl View for OpenClDeviceInfo {
    type V = DeviceView;

    open spec fn view(&self) -> DeviceView {
        DeviceView {
            name: self.name@,
            vendor: self.vendor@,
            platform: self.platform@,
            supports_fp16: self.supports_fp16,
        }
    }
}

/// The answer, or a text to take its place.
pub open spec fn answer_or(answer: Option<String>, otherwise: Seq<char>) -> Seq<char> {
    match answer {
        Some(text) => text@,
        None => otherwise,
    }
}

fn answer(given: &Option<String>, otherwise: &str) -> (r: String)
    ensures
        r@ == answer_or(*given, otherwise@),
{
    match given {
        Some(text) => text.clone(),
        None => otherwise.to_owned(),
    }
}

/// What is known of a GPU of a platform. Half precision is supported where the
/// driver lists `cl_khr_fp16` among its extensions.
pub open spec fn described(platform: PlatformAnswers, device: DeviceAnswers) -> DeviceView {
    DeviceView {
        name: answer_or(device.name, "unknown OpenCL GPU"@),
        vendor: answer_or(device.vendor, "unknown vendor"@),
        platform: answer_or(platform.name, "unknown OpenCL platform"@),
        supports_fp16: has_word(answer_or(device.extensions, Seq::empty()), "cl_khr_fp16"@),
    }
}

/// What is known of the first `count` GPUs of a platform.
pub open spec fn platform_devices(platform: PlatformAnswers, count: nat) -> Seq<DeviceView> {
    Seq::new(count, |i: int| described(platform, platform.devices@[i]))
}

/// What is known of the GPUs of the first `count` platforms.
pub open spec fn discovered_before(platforms: Seq<PlatformAnswers>, count: nat) -> Seq<DeviceView>
    decreases count,
{
    if count == 0 {
        Seq::empty()
    } else {
        let last = platforms[count - 1];
        discovered_before(platforms, (count - 1) as nat) + platform_devices(
            last,
            last.devices@.len(),
        )
    }
}

/// What is known of all GPUs, in the order of discovery.
pub open spec fn discovered(platforms: Seq<PlatformAnswers>) -> Seq<DeviceView> {
    discovered_before(platforms, platforms.len())
}

/// Whether `a` comes before `b` in a dictionary.
pub open spec fn text_less(a: Seq<char>, b: Seq<char>) -> bool
    decreases a.len(),
{
    if b.len() == 0 {
        false
    } else if a.len() == 0 {
        true
    } else if a[0] != b[0] {
        a[0] < b[0]
    } else {
        text_less(a.skip(1), b.skip(1))
    }
}

/// What GPUs are ordered by.
#[verifier::ext_equal]
pub struct PreferenceView {
    pub rank: u8,
    pub vendor: Seq<char>,
    pub name: Seq<char>,
}

/// Whether a GPU comes from Qualcomm's own driver.
pub open spec fn is_qualcomm(device: DeviceView) -> bool {
    contains_text(ascii_lower(device.vendor), "qualcomm"@)
}

/// Qualcomm's Adreno GPUs rank first, then Qualcomm's others, then the rest.
pub open spec fn preference_of(device: DeviceView) -> PreferenceView {
    PreferenceView {
        rank: if is_qualcomm(device) && contains_text(ascii_lower(device.name), "adreno"@) {
            0
        } else if is_qualcomm(device) {
            1
        } else {
            2
        },
        vendor: ascii_lower(device.vendor),
        name: ascii_lower(device.name),
    }
}

/// Whether one preference is strictly before another: by rank, then by vendor,
/// then by name.
pub open spec fn preferred(a: PreferenceView, b: PreferenceView) -> bool {
    a.rank < b.rank || (a.rank == b.rank && (text_less(a.vendor, b.vendor) || (a.vendor == b.vendor
        && text_less(a.name, b.name))))
}

/// Whether the GPU found at `i` is listed before the one found at `j`: it is
/// preferred, or neither is and it was found earlier.
pub open spec fn listed_before(devices: Seq<DeviceView>, i: int, j: int) -> bool {
    let a = preference_of(devices[i]);
    let b = preference_of(devices[j]);
    preferred(a, b) || (!preferred(b, a) && i < j)
}

/// Whether `order` lists the GPUs by preference, each once.
pub open spec fn is_listing(devices: Seq<DeviceView>, order: Seq<int>) -> bool {
    &&& order.len() == devices.len()
    &&& forall|i: int| 0 <= i < order.len() ==> 0 <= #[trigger] order[i] < devices.len()
    &&& forall|i: int, j: int|
        0 <= i < j < order.len() ==> listed_before(devices, #[trigger] order[i], #[trigger] order[j])
}

/// Where the listed GPUs were found.
pub open spec fn positions(listed: Seq<OpenClDevice>) -> Seq<int> {
    listed.map_values(|device: OpenClDevice| device.device as int)
}

/// Whether `listed` holds the GPUs by preference, numbered in that order.
pub open spec fn lists(platforms: Seq<PlatformAnswers>, listed: Seq<OpenClDevice>) -> bool {
    &&& is_listing(discovered(platforms), positions(listed))
    &&& forall|i: int|
        0 <= i < listed.len() ==> (#[trigger] listed[i]).info.index == i && listed[i].info@
            == discovered(platforms)[listed[i].device as int]
}

/// What GPUs are ordered by.
struct Preference {
    rank: u8,
    vendor: Vec<char>,
    name: Vec<char>,
}

impl View for Preference {
    type V = PreferenceView;

    closed spec fn view(&self) -> PreferenceView {
        PreferenceView { rank: self.rank, vendor: self.vendor@, name: self.name@ }
    }
}

fn preference(info: &OpenClDeviceInfo) -> (r: Preference)
    ensures
        r@ == preference_of(info@),
{
    let vendor = ascii_lower_chars(info.vendor.as_str());
    let name = ascii_lower_chars(info.name.as_str());
    let rank: u8 = if contains(&vendor, "qualcomm") && contains(&name, "adreno") {
        0
    } else if contains(&vendor, "qualcomm") {
        1
    } else {
        2
    };
    Preference { rank, vendor, name }
}

fn chars_less(a: &Vec<char>, b: &Vec<char>) -> (r: bool)
    ensures
        r == text_less(a@, b@),
{
    let mut i: usize = 0;
    proof {
        assert(a@.skip(0) == a@ && b@.skip(0) == b@);
    }
    while i < a.len() && i < b.len()
        invariant
            i <= a.len(),
            i <= b.len(),
            text_less(a@, b@) == text_less(a@.skip(i as int), b@.skip(i as int)),
        decreases a.len() - i,
    {
        proof {
            assert(a@.skip(i as int).skip(1) == a@.skip(i + 1));
            assert(b@.skip(i as int).skip(1) == b@.skip(i + 1));
        }
        if a[i] != b[i] {
            return a[i] < b[i];
        }
        i += 1;
    }
    i < b.len()
}

fn chars_equal(a: &Vec<char>, b: &Vec<char>) -> (r: bool)
    ensures
        r == (a@ == b@),
{
    if a.len() != b.len() {
        return false;
    }
    for i in 0..a.len()
        invariant
            a.len() == b.len(),
            forall|j: int| 0 <= j < i ==> a@[j] == b@[j],
    {
        if a[i] != b[i] {
            return false;
        }
    }
    proof {
        assert(a@ =~= b@);
    }
    true
}

fn is_preferred(a: &Preference, b: &Preference) -> (r: bool)
    ensures
        r == preferred(a@, b@),
{
    if a.rank != b.rank {
        return a.rank < b.rank;
    }
    if chars_less(&a.vendor, &b.vendor) {
        return true;
    }
    chars_equal(&a.vendor, &b.vendor) && chars_less(&a.name, &b.name)
}

proof fn lemma_text_less_is_transitive(a: Seq<char>, b: Seq<char>, c: Seq<char>)
    requires
        text_less(a, b),
        text_less(b, c),
    ensures
        text_less(a, c),
    decreases a.len(),
{
    if a.len() > 0 && a[0] == b[0] && b[0] == c[0] {
        lemma_text_less_is_transitive(a.skip(1), b.skip(1), c.skip(1));
    }
}

proof fn lemma_text_less_is_total(a: Seq<char>, b: Seq<char>)
    ensures
        text_less(a, b) || text_less(b, a) || a == b,
        !(text_less(a, b) && text_less(b, a)),
        a == b ==> !text_less(a, b),
    decreases a.len(),
{
    if a.len() > 0 && b.len() > 0 {
        lemma_text_less_is_total(a.skip(1), b.skip(1));
        if a[0] == b[0] && a.skip(1) == b.skip(1) {
            assert(a =~= b) by {
                assert forall|i: int| 0 <= i < a.len() implies a[i] == b[i] by {
                    if i > 0 {
                        assert(a.skip(1)[i - 1] == b.skip(1)[i - 1]);
                    }
                }
                assert(a.skip(1).len() == b.skip(1).len());
            }
        }
    } else if a.len() == 0 && b.len() == 0 {
        assert(a =~= b);
    }
}

proof fn lemma_preferred(a: PreferenceView, b: PreferenceView, c: PreferenceView)
    ensures
        preferred(a, b) && preferred(b, c) ==> preferred(a, c),
        preferred(a, b) || preferred(b, a) || a == b,
        !(preferred(a, b) && preferred(b, a)),
{
    lemma_text_less_is_total(a.vendor, b.vendor);
    lemma_text_less_is_total(a.name, b.name);
    if text_less(a.vendor, b.vendor) && text_less(b.vendor, c.vendor) {
        lemma_text_less_is_transitive(a.vendor, b.vendor, c.vendor);
    }
    if text_less(a.name, b.name) && text_less(b.name, c.name) {
        lemma_text_less_is_transitive(a.name, b.name, c.name);
    }
}

/// The GPUs of the platforms by preference, each with its logical index.
///
/// Windows on Snapdragon may expose the Adreno twice: once through the native
/// Qualcomm ICD and once through Microsoft's OpenCL-on-D3D12 layer. The native
/// driver is preferred because it exposes FP16 and Qualcomm extensions.
pub fn enumerate_devices(platforms: Result<Vec<PlatformAnswers>, String>) -> (r: Result<
    Vec<OpenClDevice>,
    String,
>)
    ensures
        match platforms {
            Ok(answers) => r matches Ok(listed) && lists(answers@, listed@),
            Err(error) => r matches Err(message) && message@ == "OpenCL platform query failed: "@
                + error@,
        },
{
    let answers = match platforms {
        Ok(answers) => answers,
        Err(error) => {
            let mut message = "OpenCL platform query failed: ".to_owned();
            message.append(error.as_str());
            return Err(message);
        },
    };
    let mut listed: Vec<OpenClDevice> = Vec::new();
    for p in 0..answers.len()
        invariant
            holds(discovered_before(answers@, p as nat), listed@),
            is_listing(discovered_before(answers@, p as nat), positions(listed@)),
    {
        let platform = &answers[p];
        let ghost before = discovered_before(answers@, p as nat);
        for d in 0..platform.devices.len()
            invariant
                *platform == answers@[p as int],
                holds(before + platform_devices(*platform, d as nat), listed@),
                is_listing(before + platform_devices(*platform, d as nat), positions(listed@)),
        {
            let device = &platform.devices[d];
            let extensions = answer(&device.extensions, "");
            proof {
                reveal_strlit("");
                assert(""@ =~= Seq::<char>::empty());
            }
            let info = OpenClDeviceInfo {
                index: 0,
                name: answer(&device.name, "unknown OpenCL GPU"),
                vendor: answer(&device.vendor, "unknown vendor"),
                platform: answer(&platform.name, "unknown OpenCL platform"),
                supports_fp16: contains_word(extensions.as_str(), "cl_khr_fp16"),
            };
            proof {
                assert(before + platform_devices(*platform, (d + 1) as nat) == (before
                    + platform_devices(*platform, d as nat)).push(described(*platform, *device)));
            }
            let position = listed.len();
            insert_by_preference(
                &mut listed,
                OpenClDevice { info, device: position },
                Ghost(before + platform_devices(*platform, d as nat)),
            );
        }
    }
    let ghost unnumbered = listed@;
    number(&mut listed);
    proof {
        assert(positions(listed@) == positions(unnumbered));
    }
    Ok(listed)
}

/// Whether the listed GPUs are described as found.
spec fn holds(devices: Seq<DeviceView>, listed: Seq<OpenClDevice>) -> bool {
    forall|i: int|
        0 <= i < listed.len() ==> (#[trigger] listed[i]).info@ == devices[listed[i].device as int]
}

/// Lists a newly found GPU behind all that it is not preferred to.
fn insert_by_preference(
    listed: &mut Vec<OpenClDevice>,
    device: OpenClDevice,
    Ghost(devices): Ghost<Seq<DeviceView>>,
)
    requires
        holds(devices, old(listed)@),
        is_listing(devices, positions(old(listed)@)),
        device.device == devices.len(),
    ensures
        holds(devices.push(device.info@), final(listed)@),
        is_listing(devices.push(device.info@), positions(final(listed)@)),
{
    let key = preference(&device.info);
    let mut at: usize = 0;
    while at < listed.len()
        invariant_except_break
            at <= listed.len(),
        invariant
            *listed == *old(listed),
            holds(devices, listed@),
            is_listing(devices, positions(listed@)),
            key@ == preference_of(device.info@),
            forall|i: int|
                0 <= i < at ==> !preferred(key@, preference_of((#[trigger] listed@[i]).info@)),
        ensures
            at <= listed.len(),
            at < listed.len() ==> preferred(key@, preference_of(listed@[at as int].info@)),
        decreases listed.len() - at,
    {
        let other = preference(&listed[at].info);
        if is_preferred(&key, &other) {
            break;
        }
        at += 1;
    }
    let ghost before = listed@;
    let ghost added = device;
    listed.insert(at, device);
    proof {
        let more = devices.push(added.info@);
        let order = positions(before);
        let longer = positions(listed@);
        assert(listed@ == before.insert(at as int, added));
        assert(longer == order.insert(at as int, devices.len() as int));
        assert forall|i: int| 0 <= i < before.len() implies more[#[trigger] order[i]] == devices[order[i]]
            && devices[order[i]] == before[i].info@ by {
            assert(order[i] == before[i].device);
        }
        assert forall|i: int, j: int| 0 <= i < j < longer.len() implies listed_before(
            more,
            #[trigger] longer[i],
            #[trigger] longer[j],
        ) by {
            lemma_insertion_is_listed(devices, before, added, at as int, i, j);
        }
        assert forall|i: int| 0 <= i < longer.len() implies 0 <= #[trigger] longer[i] < more.len() by {
            if i < at {
                assert(longer[i] == order[i]);
            } else if i > at {
                assert(longer[i] == order[i - 1]);
            }
        }
        assert forall|i: int| 0 <= i < listed@.len() implies (#[trigger] listed@[i]).info@
            == more[listed@[i].device as int] by {
            if i < at {
                assert(listed@[i] == before[i] && order[i] == before[i].device);
            } else if i > at {
                assert(listed@[i] == before[i - 1] && order[i - 1] == before[i - 1].device);
            }
        }
    }
}

proof fn lemma_insertion_is_listed(
    devices: Seq<DeviceView>,
    before: Seq<OpenClDevice>,
    added: OpenClDevice,
    at: int,
    i: int,
    j: int,
)
    requires
        holds(devices, before),
        is_listing(devices, positions(before)),
        added.device == devices.len(),
        0 <= at <= before.len(),
        forall|i: int|
            0 <= i < at ==> !preferred(
                preference_of(added.info@),
                preference_of((#[trigger] before[i]).info@),
            ),
        at < before.len() ==> preferred(
            preference_of(added.info@),
            preference_of(before[at].info@),
        ),
        0 <= i < j < before.len() + 1,
    ensures
        listed_before(
            devices.push(added.info@),
            positions(before).insert(at, devices.len() as int)[i],
            positions(before).insert(at, devices.len() as int)[j],
        ),
{
    let more = devices.push(added.info@);
    let order = positions(before);
    let longer = order.insert(at, devices.len() as int);
    assert forall|k: int| 0 <= k < before.len() implies 0 <= #[trigger] order[k] < devices.len()
        && more[order[k]] == before[k].info@ by {
        assert(order[k] == before[k].device);
    }
    let key = preference_of(added.info@);
    if j == at {
        assert(longer[i] == order[i] && longer[j] == devices.len());
        assert(more[order[i]] == before[i].info@);
    } else if i == at {
        assert(longer[j] == order[j - 1] && longer[i] == devices.len());
        let first = preference_of(before[at].info@);
        let other = preference_of(before[j - 1].info@);
        assert(more[order[at]] == before[at].info@ && more[order[j - 1]] == before[j - 1].info@);
        if at < j - 1 {
            assert(listed_before(devices, order[at], order[j - 1]));
        }
        lemma_preferred(key, first, other);
        lemma_preferred(first, other, key);
    } else {
        let from = if i < at { i } else { i - 1 };
        let to = if j < at { j } else { j - 1 };
        assert(longer[i] == order[from] && longer[j] == order[to]);
        assert(listed_before(devices, order[from], order[to]));
        assert(more[order[from]] == before[from].info@ && more[order[to]] == before[to].info@);
    }
}

/// Numbers the listed GPUs.
fn number(listed: &mut Vec<OpenClDevice>)
    ensures
        final(listed)@.len() == old(listed)@.len(),
        forall|i: int|
            0 <= i < final(listed)@.len() ==> (#[trigger] final(listed)@[i]).info.index == i
                && final(listed)@[i].info@ == old(listed)@[i].info@ && final(listed)@[i].device
                == old(listed)@[i].device,
{
    let count = listed.len();
    for k in 0..count
        invariant
            count == listed@.len(),
            listed@.len() == old(listed)@.len(),
            forall|i: int|
                0 <= i < listed@.len() ==> (#[trigger] listed@[i]).info@ == old(listed)@[i].info@
                    && listed@[i].device == old(listed)@[i].device,
            forall|i: int| 0 <= i < k ==> (#[trigger] listed@[i]).info.index == i,
    {
        listed[k].info.index = k;
    }
}

/// Enumerate usable OpenCL GPUs, with the native Qualcomm Adreno ICD first.
pub fn available_devices(platforms: Result<Vec<PlatformAnswers>, String>) -> (r: Result<
    Vec<OpenClDeviceInfo>,
    String,
>)
    ensures
        match platforms {
            Ok(answers) => r matches Ok(infos) && exists|order: Seq<int>|
                #[trigger] is_listing(discovered(answers@), order) && infos@.len() == order.len()
                    && forall|i: int|
                    0 <= i < infos@.len() ==> (#[trigger] infos@[i]).index == i && infos@[i]@
                        == discovered(answers@)[order[i]],
            Err(error) => r matches Err(message) && message@ == "OpenCL platform query failed: "@
                + error@,
        },
{
    let mut listed = enumerate_devices(platforms)?;
    let ghost all = listed@;
    let mut infos: Vec<OpenClDeviceInfo> = Vec::new();
    while listed.len() > 0
        invariant
            listed@ == all.skip(infos@.len() as int),
            infos@.len() <= all.len(),
            forall|i: int| 0 <= i < infos@.len() ==> #[trigger] infos@[i] == all[i].info,
        decreases listed.len(),
    {
        let device = listed.remove(0);
        infos.push(device.info);
    }
    proof {
        let order = positions(all);
        assert forall|i: int| 0 <= i < infos@.len() implies (#[trigger] infos@[i]).index == i && infos@[i]@
            == discovered(platforms->Ok_0@)[order[i]] by {
            assert(infos@[i] == all[i].info);
        }
        assert(is_listing(discovered(platforms->Ok_0@), order));
    }
    Ok(infos)
}

/// The GPU with the given logical index.
pub fn select_device(devices: &Vec<OpenClDevice>, device_index: usize) -> (r: Result<
    &OpenClDevice,
    String,
>)
    ensures
        match r {
            Ok(device) => device_index < devices@.len() && *device == devices@[device_index as int],
            Err(message) => device_index >= devices@.len() && message@ == "OpenCL device index "@
                + decimal_text(device_index as nat) + " does not exist"@,
        },
{
    if device_index < devices.len() {
        Ok(&devices[device_index])
    } else {
        let mut message = "OpenCL device index ".to_owned();
        push_decimal(&mut message, device_index as u64);
        message.append(" does not exist");
        Err(message)
    }
}

/// If there is a GPU of Qualcomm's own driver, the first listed is one; if one
/// of these is an Adreno, so is the first.
pub proof fn law_native_qualcomm_comes_first(devices: Seq<DeviceView>, order: Seq<int>, found: int)
    requires
        is_listing(devices, order),
        0 <= found < devices.len(),
        is_qualcomm(devices[found]),
    ensures
        is_qualcomm(devices[order[0]]),
        preference_of(devices[found]).rank == 0 ==> preference_of(devices[order[0]]).rank == 0,
{
    lemma_listing_is_complete(devices, order, found);
    let i = order.index_of(found);
    if i > 0 {
        assert(listed_before(devices, order[0], order[i]));
    }
    assert(preference_of(devices[order[0]]).rank <= preference_of(devices[found]).rank);
}

/// A listing holds every GPU.
proof fn lemma_listing_is_complete(devices: Seq<DeviceView>, order: Seq<int>, found: int)
    requires
        is_listing(devices, order),
        0 <= found < devices.len(),
    ensures
        order.contains(found),
{
    assert(order.no_duplicates()) by {
        assert forall|i: int, j: int| 0 <= i < j < order.len() implies order[i] != order[j] by {
            assert(listed_before(devices, order[i], order[j]));
            lemma_preferred(
                preference_of(devices[order[i]]),
                preference_of(devices[order[j]]),
                preference_of(devices[order[j]]),
            );
        }
    }
    order.unique_seq_to_set();
    let all = vstd::set_lib::set_int_range(0, devices.len() as int);
    vstd::set_lib::lemma_int_range(0, devices.len() as int);
    assert(order.to_set().subset_of(all));
    vstd::set_lib::lemma_subset_equality(order.to_set(), all);
    assert(order.to_set().contains(found));
}

/// There is only one listing of given GPUs.
pub proof fn law_listing_is_unique(devices: Seq<DeviceView>, a: Seq<int>, b: Seq<int>)
    requires
        is_listing(devices, a),
        is_listing(devices, b),
    ensures
        a == b,
{
    assert forall|k: int| 0 <= k <= a.len() implies a.take(k) == b.take(k) by {
        lemma_listings_agree(devices, a, b, k);
    }
    assert(a.take(a.len() as int) == a);
    assert(b.take(b.len() as int) == b);
}

proof fn lemma_listings_agree(devices: Seq<DeviceView>, a: Seq<int>, b: Seq<int>, k: int)
    requires
        is_listing(devices, a),
        is_listing(devices, b),
        0 <= k <= a.len(),
    ensures
        a.take(k) == b.take(k),
    decreases k,
{
    if k > 0 {
        let at = k - 1;
        lemma_listings_agree(devices, a, b, at);
        if a[at] != b[at] {
            lemma_listing_is_complete(devices, b, a[at]);
            lemma_listing_is_complete(devices, a, b[at]);
            let i = b.index_of(a[at]);
            let j = a.index_of(b[at]);
            lemma_no_repeat(devices, a, j, at);
            lemma_no_repeat(devices, b, i, at);
            if i < at {
                assert(b.take(at)[i] == a.take(at)[i]);
                lemma_no_repeat(devices, a, i, at);
            }
            if j < at {
                assert(a.take(at)[j] == b.take(at)[j]);
                lemma_no_repeat(devices, b, j, at);
            }
            assert(i > at && j > at);
            assert(listed_before(devices, b[at], b[i]));
            assert(listed_before(devices, a[at], a[j]));
            lemma_preferred(
                preference_of(devices[a[at]]),
                preference_of(devices[b[at]]),
                preference_of(devices[b[at]]),
            );
        }
        assert(a.take(k) == a.take(at).push(a[at]));
        assert(b.take(k) == b.take(at).push(b[at]));
    }
}

proof fn lemma_no_repeat(devices: Seq<DeviceView>, order: Seq<int>, i: int, j: int)
    requires
        is_listing(devices, order),
        0 <= i < order.len(),
        0 <= j < order.len(),
    ensures
        i != j ==> order[i] != order[j],
{
    let (low, high) = if i < j { (i, j) } else { (j, i) };
    if i != j {
        assert(listed_before(devices, order[low], order[high]));
        lemma_preferred(
            preference_of(devices[order[low]]),
            preference_of(devices[order[high]]),
            preference_of(devices[order[high]]),
        );
    }
}

/// The group of a GPU: Adreno GPUs of Qualcomm, other GPUs of Qualcomm, and all
/// others. Names count in whatever case.
pub open spec fn group(device: DeviceView) -> int {
    if mentions(device.vendor, "qualcomm"@) {
        if mentions(device.name, "adreno"@) {
            0
        } else {
            1
        }
    } else {
        2
    }
}

/// A listing keeps the groups in order, orders the GPUs of a group by vendor and
/// those of a vendor by name, in lower case, and those of one name by when they were
/// found.
pub proof fn law_listing_keeps_groups_together(
    devices: Seq<DeviceView>,
    order: Seq<int>,
    i: int,
    j: int,
)
    requires
        is_listing(devices, order),
        0 <= i < j < order.len(),
    ensures
        ({
            let a = devices[order[i]];
            let b = devices[order[j]];
            &&& group(a) <= group(b)
            &&& group(a) == group(b) ==> {
                ||| text_less(ascii_lower(a.vendor), ascii_lower(b.vendor))
                ||| ascii_lower(a.vendor) == ascii_lower(b.vendor) && (text_less(
                    ascii_lower(a.name),
                    ascii_lower(b.name),
                ) || ascii_lower(a.name) == ascii_lower(b.name) && order[i] < order[j])
            }
        }),
{
    let a = devices[order[i]];
    let b = devices[order[j]];
    lemma_group(a);
    lemma_group(b);
    assert(listed_before(devices, order[i], order[j]));
    lemma_text_less_is_total(ascii_lower(a.vendor), ascii_lower(b.vendor));
    lemma_text_less_is_total(ascii_lower(a.name), ascii_lower(b.name));
}

/// All GPUs are listed, each under its place as its index: first the Adreno GPUs of
/// Qualcomm, then its others, then the rest.
pub proof fn law_available_gpus_are_in_order(
    platforms: Vec<PlatformAnswers>,
    r: Result<Vec<OpenClDeviceInfo>, String>,
    i: int,
    j: int,
)
    requires
        call_ensures(available_devices, (Ok(platforms),), r),
    ensures
        r matches Ok(infos) && infos@.len() == gpus_before(platforms@, platforms@.len()) && (0 <= i
            < j < infos@.len() ==> infos@[i].index == i && group(infos@[i]@) <= group(infos@[j]@)
            && (group(infos@[i]@) == group(infos@[j]@) ==> !text_less(
            ascii_lower(infos@[j]@.vendor),
            ascii_lower(infos@[i]@.vendor),
        ))),
{
    let infos = r->Ok_0;
    let devices = discovered(platforms@);
    let order = choose|order: Seq<int>|
        #[trigger] is_listing(devices, order) && infos@.len() == order.len() && forall|k: int|
            0 <= k < infos@.len() ==> (#[trigger] infos@[k]).index == k && infos@[k]@
                == devices[order[k]];
    lemma_count(platforms@, platforms@.len());
    if 0 <= i < j < infos@.len() {
        law_listing_keeps_groups_together(devices, order, i, j);
        assert(infos@[i].index == i);
        assert(infos@[j]@ == devices[order[j]]);
        lemma_text_less_is_total(
            ascii_lower(infos@[i]@.vendor),
            ascii_lower(infos@[j]@.vendor),
        );
    }
}

proof fn lemma_count(platforms: Seq<PlatformAnswers>, count: nat)
    requires
        count <= platforms.len(),
    ensures
        discovered_before(platforms, count).len() == gpus_before(platforms, count),
    decreases count,
{
    if count > 0 {
        lemma_count(platforms, (count - 1) as nat);
    }
}

proof fn lemma_group(device: DeviceView)
    ensures
        preference_of(device).rank == group(device),
        preference_of(device).vendor == ascii_lower(device.vendor),
        preference_of(device).name == ascii_lower(device.name),
{
    reveal_strlit("qualcomm");
    reveal_strlit("adreno");
    law_lower_case_finds_any_case(device.vendor, "qualcomm"@);
    law_lower_case_finds_any_case(device.name, "adreno"@);
}

/// In a dictionary a text comes before every longer one that begins with it, and
/// otherwise the first character in which two texts differ decides.
pub proof fn law_dictionary_order(a: Seq<char>, b: Seq<char>, common: int)
    requires
        0 <= common <= a.len(),
        common <= b.len(),
        a.take(common) == b.take(common),
    ensures
        common == a.len() ==> (text_less(a, b) <==> a.len() < b.len()),
        common < a.len() && common == b.len() ==> !text_less(a, b),
        common < a.len() && common < b.len() && a[common] != b[common] ==> (text_less(a, b)
            <==> a[common] < b[common]),
    decreases common,
{
    if common > 0 {
        assert(a.take(common)[0] == a[0] && b.take(common)[0] == b[0]);
        assert(a.skip(1).take(common - 1) =~= a.take(common).skip(1));
        assert(b.skip(1).take(common - 1) =~= b.take(common).skip(1));
        law_dictionary_order(a.skip(1), b.skip(1), common - 1);
        assert(text_less(a, b) == text_less(a.skip(1), b.skip(1)));
    }
}

/// The number of GPUs of the first `count` platforms.
pub open spec fn gpus_before(platforms: Seq<PlatformAnswers>, count: nat) -> nat
    decreases count,
{
    if count == 0 {
        0
    } else {
        gpus_before(platforms, (count - 1) as nat) + platforms[count - 1].devices@.len()
    }
}

/// Every GPU of every platform is found, once, behind those of the platforms before
/// and in the order of its own platform; what was answered of it is kept, and it
/// supports half precision exactly where its extensions list that.
pub proof fn law_every_gpu_is_found(platforms: Seq<PlatformAnswers>, p: int, d: int)
    requires
        0 <= p < platforms.len(),
        0 <= d < platforms[p].devices@.len(),
    ensures
        discovered(platforms).len() == gpus_before(platforms, platforms.len()),
        ({
            let found = discovered(platforms)[gpus_before(platforms, p as nat) + d];
            let answers = platforms[p].devices@[d];
            &&& answers.name matches Some(name) ==> found.name == name@
            &&& answers.vendor matches Some(vendor) ==> found.vendor == vendor@
            &&& platforms[p].name matches Some(name) ==> found.platform == name@
            &&& found.supports_fp16 <==> (answers.extensions matches Some(extensions) && has_word(
                extensions@,
                "cl_khr_fp16"@,
            ))
        }),
{
    lemma_found(platforms, platforms.len(), p, d);
    reveal_strlit("cl_khr_fp16");
    if platforms[p].devices@[d].extensions is None {
        assert("cl_khr_fp16"@.len() == 11);
        assert(!has_word(Seq::<char>::empty(), "cl_khr_fp16"@));
    }
}

proof fn lemma_found(platforms: Seq<PlatformAnswers>, count: nat, p: int, d: int)
    requires
        0 <= p < platforms.len(),
        0 <= d < platforms[p].devices@.len(),
        count <= platforms.len(),
    ensures
        discovered_before(platforms, count).len() == gpus_before(platforms, count),
        p < count ==> gpus_before(platforms, p as nat) + d < gpus_before(platforms, count)
            && discovered_before(platforms, count)[gpus_before(platforms, p as nat) + d]
            == described(platforms[p], platforms[p].devices@[d]),
    decreases count,
{
    if count > 0 {
        lemma_found(platforms, (count - 1) as nat, p, d);
    }
}

} // verus!
