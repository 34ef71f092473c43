//! Whether the processor's time stamp counter ticks at a constant rate, judged from the CPUID
//! information that the processor reports.

use raw_cpuid::CpuId;
use vstd::prelude::*;
use vstd::string::StringExecFns;

verus! {

/// The family/model number that the support rules compare against: the base family in bits 8
/// and up, the extended model in bits 4 to 7, the base model (or-ed in) in the low bits.
pub open spec fn family_model_spec(family: u8, extended_model: u8, model: u8) -> u32 {
    ((family as u32) << 8u32) | ((extended_model as u32) << 4u32) | (model as u32)
}

/// Whether a processor has a constant (or better: nonstop/invariant) time stamp counter.
///
/// Intel processors from the Core microarchitecture on (family/model `0x60E` and up) and VIA
/// Nano and later (`0x60F` and up) have at least a constant counter.  Otherwise only Intel, AMD
/// and Centaur processors are considered, and only by the invariant-TSC CPUID flag; for a
/// vendor other than Intel that flag is not trusted on a machine with several sockets.
pub open spec fn tsc_policy(
    vendor: Seq<char>,
    family_model: u32,
    multiple_sockets: bool,
    nonstop_tsc: bool,
) -> bool {
    if vendor == "GenuineIntel"@ {
        family_model >= 0x60E || nonstop_tsc
    } else if vendor == "AuthenticAMD"@ {
        !multiple_sockets && nonstop_tsc
    } else if vendor == "CentaurHauls"@ {
        family_model >= 0x60F || (!multiple_sockets && nonstop_tsc)
    } else {
        false
    }
}

/// A newer processor of the same vendor is never judged worse: if a family/model number gives
/// a usable counter, every larger one does too, whatever the socket and invariant-TSC flags.
pub proof fn lemma_tsc_policy_monotone_in_model(
    vendor: Seq<char>,
    older: u32,
    newer: u32,
    multiple_sockets: bool,
    nonstop_tsc: bool,
)
    requires
        older <= newer,
        tsc_policy(vendor, older, multiple_sockets, nonstop_tsc),
    ensures
        tsc_policy(vendor, newer, multiple_sockets, nonstop_tsc),
{
}

/// Intel processors from family/model `0x60E` on, and Centaur ones from `0x60F` on, always
/// have a usable counter, whatever the socket and invariant-TSC flags.
pub proof fn lemma_tsc_policy_recent_models(
    family_model: u32,
    multiple_sockets: bool,
    nonstop_tsc: bool,
)
    ensures
        family_model >= 0x60E ==> tsc_policy("GenuineIntel"@, family_model, multiple_sockets, nonstop_tsc),
        family_model >= 0x60F ==> tsc_policy("CentaurHauls"@, family_model, multiple_sockets, nonstop_tsc),
{
    lemma_vendor_names_differ();
}

/// The three vendor strings that the rules name are distinct.
proof fn lemma_vendor_names_differ()
    ensures
        "GenuineIntel"@ != "AuthenticAMD"@,
        "GenuineIntel"@ != "CentaurHauls"@,
        "AuthenticAMD"@ != "CentaurHauls"@,
{
    reveal_strlit("GenuineIntel");
    reveal_strlit("AuthenticAMD");
    reveal_strlit("CentaurHauls");
    assert("GenuineIntel"@[0] != "AuthenticAMD"@[0]);
    assert("GenuineIntel"@[0] != "CentaurHauls"@[0]);
    assert("AuthenticAMD"@[0] != "CentaurHauls"@[0]);
}

/// Applies [`tsc_policy`] to a vendor string, a family/model number, whether the machine has
/// several sockets, and whether the processor reports an invariant counter.
pub fn tsc_supported(vendor: &String, family_model: u32, multiple_sockets: bool, nonstop_tsc: bool) -> (r:
    bool)
    ensures
        r == tsc_policy(vendor@, family_model, multiple_sockets, nonstop_tsc),
        vendor@ == "GenuineIntel"@ && family_model >= 0x60E ==> r,
        vendor@ == "CentaurHauls"@ && family_model >= 0x60F ==> r,
        vendor@ == "GenuineIntel"@ && nonstop_tsc ==> r,
        !multiple_sockets && nonstop_tsc && (vendor@ == "GenuineIntel"@ || vendor@
            == "AuthenticAMD"@ || vendor@ == "CentaurHauls"@) ==> r,
        vendor@ != "GenuineIntel"@ && vendor@ != "AuthenticAMD"@ && vendor@ != "CentaurHauls"@
            ==> !r,
        !nonstop_tsc && family_model < 0x60E ==> !r,
        multiple_sockets && vendor@ != "GenuineIntel"@ && family_model < 0x60F ==> !r,
{
    proof {
        lemma_vendor_names_differ();
    }
    let intel = String::from_str("GenuineIntel");
    let amd = String::from_str("AuthenticAMD");
    let centaur = String::from_str("CentaurHauls");
    if *vendor == intel {
        if family_model >= 0x60E {
            return true;
        }
    } else if *vendor == amd {
    } else if *vendor == centaur {
        if family_model >= 0x60F {
            return true;
        }
    } else {
        return false;
    }
    if multiple_sockets && *vendor != intel {
        return false;
    }
    nonstop_tsc
}

/// Combines the CPUID base family, extended model and base model into one number.
pub fn family_model(family: u8, extended_model: u8, model: u8) -> (r: u32)
    ensures
        r == family_model_spec(family, extended_model, model),
{
    (family as u32) << 8u32 | (extended_model as u32) << 4u32 | model as u32
}

/// `CpuId::new().get_vendor_info()` and `VendorInfo::as_str`: the vendor string that the
/// processor reports, if it reports one.  It depends on the machine, so nothing is claimed of it.
#[verifier::external_body]
fn cpuid_vendor() -> (r: Option<String>) {
    match CpuId::new().get_vendor_info() {
        Some(vi) => Some(vi.as_str().to_string()),
        None => None,
    }
}

/// `CpuId::new().get_feature_info()` and its `base_family_id`, `extended_model_id` and
/// `base_model_id`: the processor's version numbers, if it reports them.  Their values depend
/// on the machine; what is claimed is that each is a 4-bit field of the CPUID version word, so
/// below 16.
#[verifier::external_body]
fn cpuid_version_ids() -> (r: Option<(u8, u8, u8)>)
    ensures
        r matches Some((f, e, m)) ==> f < 16 && e < 16 && m < 16,
{
    match CpuId::new().get_feature_info() {
        Some(fi) => Some((fi.base_family_id(), fi.extended_model_id(), fi.base_model_id())),
        None => None,
    }
}

/// `CpuId::new().get_advanced_power_mgmt_info()` and `ApmInfo::has_invariant_tsc`: whether the
/// processor reports an invariant time stamp counter, if it reports power management
/// information at all.  It depends on the machine, so nothing is claimed of it.
#[verifier::external_body]
fn cpuid_invariant_tsc() -> (r: Option<bool>) {
    match CpuId::new().get_advanced_power_mgmt_info() {
        Some(apm) => Some(apm.has_invariant_tsc()),
        None => None,
    }
}

/// The processor's vendor string, empty when it reports none.
fn read_cpuid_mfg() -> String {
    match cpuid_vendor() {
        Some(vendor) => vendor,
        None => String::new(),
    }
}

/// Whether the processor reports an invariant counter; `false` when it reports nothing.
fn read_cpuid_nonstop_tsc() -> bool {
    match cpuid_invariant_tsc() {
        Some(stable) => stable,
        None => false,
    }
}

/// The processor's family/model number; zero when it reports none.
fn read_cpuid_family_model() -> (r: u32)
    ensures
        r == 0 || exists|f: u8, e: u8, m: u8|
            f < 16 && e < 16 && m < 16 && r == #[trigger] family_model_spec(f, e, m),
{
    match cpuid_version_ids() {
        Some((f, e, m)) => family_model(f, e, m),
        None => 0,
    }
}

/// Whether the machine has several processor sockets, given the physical package id of each of
/// its processors: some two of them differ.  An empty list means that the topology is unknown,
/// and then the answer is the cautious one, `true`.
pub open spec fn multiple_sockets_spec(package_ids: Seq<u64>) -> bool {
    package_ids.len() == 0 || exists|i: int|
        0 <= i < package_ids.len() && #[trigger] package_ids[i] != package_ids[0]
}

/// Whether the machine has several processor sockets, given the physical package id of each of
/// its processors (see [`multiple_sockets_spec`]).
pub fn has_multiple_sockets(package_ids: &Vec<u64>) -> (r: bool)
    ensures
        r == multiple_sockets_spec(package_ids@),
{
    let n = package_ids.len();
    if n == 0 {
        return true;
    }
    let first = package_ids[0];
    let mut i: usize = 1;
    while i < n
        invariant
            n == package_ids@.len(),
            1 <= i <= n,
            first == package_ids@[0],
            forall|j: int| 0 <= j < i ==> package_ids@[j] == first,
        decreases n - i,
    {
        if package_ids[i] != first {
            return true;
        }
        i = i + 1;
    }
    false
}

/// Whether this processor has a constant or better time stamp counter: [`tsc_policy`] applied
/// to what CPUID reports (a missing vendor string counts as empty, a missing version as zero, a
/// missing power management leaf as no invariant counter) and to whether the physical package
/// ids of the machine's processors show several sockets.
pub fn has_constant_or_better_tsc(package_ids: &Vec<u64>) -> bool {
    let mfg = read_cpuid_mfg();
    let fm = read_cpuid_family_model();
    let multiple = has_multiple_sockets(package_ids);
    let nonstop = read_cpuid_nonstop_tsc();
    tsc_supported(&mfg, fm, multiple, nonstop)
}

} // verus!
