//! Persistent registration: the fixed list of registry entries that
//! makes the shell discover the thumbnail handler, the matching
//! removal list, and the all-or-nothing-except-optional policy that
//! governs applying the entries.
//!
//! Writing and deleting the keys is the registration collaborator's
//! work at the host boundary; this module owns what is written and
//! how per-entry failures decide the overall outcome.

use vstd::prelude::*;

verus! {

/// The braced string form of the handler's class identifier.
pub const SZ_CLSID_TEXTHUMBHANDLER: &'static str = "{2f7e3e47-3b6b-4d59-9d42-4f4b0a5ba1b9}";

/// The display name of the handler.
pub const SZ_TEXTHUMBHANDLER: &'static str = "LTK TEX Thumbnail Handler";

/// The registry hive an entry lives under.
#[derive(Clone, Copy, Debug, PartialEq, Eq, Structural)]
pub enum RootScope {
    /// Per-machine class registrations.
    ClassesRoot,
    /// Per-machine software settings.
    LocalMachine,
}

/// One key/optional-value-name/string-data triple handed to the
/// registration collaborator.  `optional` marks an entry whose
/// failure must not abort the overall registration.
pub struct RegistryEntry {
    pub hkey_root: RootScope,
    pub key_name: String,
    pub value_name: Option<String>,
    pub data: String,
    pub optional: bool,
}

impl RegistryEntry {
    /// Builds one entry from its parts.
    pub fn new(
        root: RootScope,
        key: &str,
        value: Option<&str>,
        data: &str,
        optional: bool,
    ) -> (r: RegistryEntry)
        ensures
            r.hkey_root == root,
            r.key_name@ == key@,
            match (r.value_name, value) {
                (Some(v), Some(s)) => v@ == s@,
                (None, None) => true,
                _ => false,
            },
            r.data@ == data@,
            r.optional == optional,
    {
        let value_name = match value {
            Some(s) => Some(String::from_str(s)),
            None => None,
        };
        RegistryEntry {
            hkey_root: root,
            key_name: String::from_str(key),
            value_name,
            data: String::from_str(data),
            optional,
        }
    }
}

/// The ordered list of registry entries that registers the handler:
/// the class name, its in-process server path, the apartment
/// threading model, the shell-extension approval, and the thumbnail
/// associations for the two texture extensions.  Only the legacy
/// `.dds` association is optional; every other entry must succeed.
pub fn register_entries(dll_path: &str) -> (r: Vec<RegistryEntry>)
    ensures
        r@.len() == 6,
        forall|i: int| 0 <= i < 5 ==> !(#[trigger] r@[i]).optional,
        forall|i: int| 0 <= i < 4 ==> (#[trigger] r@[i]).hkey_root == RootScope::ClassesRoot,
        r@[0].key_name@ == "CLSID\\{2f7e3e47-3b6b-4d59-9d42-4f4b0a5ba1b9}"@,
        r@[0].value_name is None,
        r@[0].data@ == "LTK TEX Thumbnail Handler"@,
        r@[1].key_name@ == "CLSID\\{2f7e3e47-3b6b-4d59-9d42-4f4b0a5ba1b9}\\InprocServer32"@,
        r@[1].value_name is None,
        r@[1].data@ == dll_path@,
        r@[2].key_name@ == "CLSID\\{2f7e3e47-3b6b-4d59-9d42-4f4b0a5ba1b9}\\InprocServer32"@,
        r@[2].value_name is Some && r@[2].value_name.unwrap()@ == "ThreadingModel"@,
        r@[2].data@ == "Apartment"@,
        r@[3].key_name@ == ".tex\\ShellEx\\{e357fccd-a995-4576-b01f-234630154e96}"@,
        r@[3].value_name is None,
        r@[3].data@ == "{2f7e3e47-3b6b-4d59-9d42-4f4b0a5ba1b9}"@,
        r@[4].hkey_root == RootScope::LocalMachine,
        r@[4].key_name@
            == "SOFTWARE\\Microsoft\\Windows\\CurrentVersion\\Shell Extensions\\Approved"@,
        r@[4].value_name is Some && r@[4].value_name.unwrap()@
            == "{2f7e3e47-3b6b-4d59-9d42-4f4b0a5ba1b9}"@,
        r@[4].data@ == "LTK TEX Thumbnail Handler"@,
        r@[5].key_name@ == ".dds\\ShellEx\\{e357fccd-a995-4576-b01f-234630154e96}"@,
        r@[5].hkey_root == RootScope::ClassesRoot,
        r@[5].value_name is None,
        r@[5].data@ == "{2f7e3e47-3b6b-4d59-9d42-4f4b0a5ba1b9}"@,
        r@[5].optional,
{
    let mut entries: Vec<RegistryEntry> = Vec::new();
    entries.push(
        RegistryEntry::new(
            RootScope::ClassesRoot,
            "CLSID\\{2f7e3e47-3b6b-4d59-9d42-4f4b0a5ba1b9}",
            None,
            "LTK TEX Thumbnail Handler",
            false,
        ),
    );
    entries.push(
        RegistryEntry::new(
            RootScope::ClassesRoot,
            "CLSID\\{2f7e3e47-3b6b-4d59-9d42-4f4b0a5ba1b9}\\InprocServer32",
            None,
            dll_path,
            false,
        ),
    );
    entries.push(
        RegistryEntry::new(
            RootScope::ClassesRoot,
            "CLSID\\{2f7e3e47-3b6b-4d59-9d42-4f4b0a5ba1b9}\\InprocServer32",
            Some("ThreadingModel"),
            "Apartment",
            false,
        ),
    );
    entries.push(
        RegistryEntry::new(
            RootScope::ClassesRoot,
            ".tex\\ShellEx\\{e357fccd-a995-4576-b01f-234630154e96}",
            None,
            "{2f7e3e47-3b6b-4d59-9d42-4f4b0a5ba1b9}",
            false,
        ),
    );
    entries.push(
        RegistryEntry::new(
            RootScope::LocalMachine,
            "SOFTWARE\\Microsoft\\Windows\\CurrentVersion\\Shell Extensions\\Approved",
            Some("{2f7e3e47-3b6b-4d59-9d42-4f4b0a5ba1b9}"),
            "LTK TEX Thumbnail Handler",
            false,
        ),
    );
    entries.push(
        RegistryEntry::new(
            RootScope::ClassesRoot,
            ".dds\\ShellEx\\{e357fccd-a995-4576-b01f-234630154e96}",
            None,
            "{2f7e3e47-3b6b-4d59-9d42-4f4b0a5ba1b9}",
            true,
        ),
    );
    entries
}

/// One removal handed to the registration collaborator when the
/// handler unregisters: delete the named value when `value_name` is
/// present, else delete the whole key and everything under it.
pub struct RegistryRemoval {
    pub hkey_root: RootScope,
    pub key_name: String,
    pub value_name: Option<String>,
}

/// The removals that undo `register_entries`: the class key, the two
/// extension associations, and the approval value.
pub fn unregister_entries() -> (r: Vec<RegistryRemoval>)
    ensures
        r@.len() == 4,
        r@[0].hkey_root == RootScope::ClassesRoot,
        r@[0].key_name@ == "CLSID\\{2f7e3e47-3b6b-4d59-9d42-4f4b0a5ba1b9}"@,
        r@[0].value_name is None,
        r@[1].hkey_root == RootScope::ClassesRoot,
        r@[1].key_name@ == ".tex\\ShellEx\\{e357fccd-a995-4576-b01f-234630154e96}"@,
        r@[1].value_name is None,
        r@[2].hkey_root == RootScope::ClassesRoot,
        r@[2].key_name@ == ".dds\\ShellEx\\{e357fccd-a995-4576-b01f-234630154e96}"@,
        r@[2].value_name is None,
        r@[3].hkey_root == RootScope::LocalMachine,
        r@[3].key_name@
            == "SOFTWARE\\Microsoft\\Windows\\CurrentVersion\\Shell Extensions\\Approved"@,
        r@[3].value_name is Some && r@[3].value_name.unwrap()@
            == "{2f7e3e47-3b6b-4d59-9d42-4f4b0a5ba1b9}"@,
{
    let mut removals: Vec<RegistryRemoval> = Vec::new();
    removals.push(
        RegistryRemoval {
            hkey_root: RootScope::ClassesRoot,
            key_name: String::from_str("CLSID\\{2f7e3e47-3b6b-4d59-9d42-4f4b0a5ba1b9}"),
            value_name: None,
        },
    );
    removals.push(
        RegistryRemoval {
            hkey_root: RootScope::ClassesRoot,
            key_name: String::from_str(".tex\\ShellEx\\{e357fccd-a995-4576-b01f-234630154e96}"),
            value_name: None,
        },
    );
    removals.push(
        RegistryRemoval {
            hkey_root: RootScope::ClassesRoot,
            key_name: String::from_str(".dds\\ShellEx\\{e357fccd-a995-4576-b01f-234630154e96}"),
            value_name: None,
        },
    );
    removals.push(
        RegistryRemoval {
            hkey_root: RootScope::LocalMachine,
            key_name: String::from_str(
                "SOFTWARE\\Microsoft\\Windows\\CurrentVersion\\Shell Extensions\\Approved",
            ),
            value_name: Some(String::from_str("{2f7e3e47-3b6b-4d59-9d42-4f4b0a5ba1b9}")),
        },
    );
    removals
}

/// The index of the first entry that blocks registration, scanning
/// from `i`: a mandatory entry whose application failed.
pub open spec fn first_blocking_failure_from(
    entries: Seq<RegistryEntry>,
    applied: Seq<bool>,
    i: int,
) -> Option<int>
    decreases entries.len() - i,
{
    if i < 0 || i >= entries.len() {
        None
    } else if !applied[i] && !entries[i].optional {
        Some(i)
    } else {
        first_blocking_failure_from(entries, applied, i + 1)
    }
}

/// The index of the first mandatory entry whose application failed,
/// if any.
pub open spec fn first_blocking_failure(entries: Seq<RegistryEntry>, applied: Seq<bool>) -> Option<
    int,
> {
    first_blocking_failure_from(entries, applied, 0)
}

/// Decides the outcome of a registration run from the per-entry
/// results the collaborator reported, applying the entries in order.
///
/// Registration succeeds exactly when every mandatory entry was
/// applied; a failed optional entry is skipped.  The first mandatory
/// failure aborts the run — entries after it are not consulted — and
/// its index is reported.
/// The verdict is a success exactly when every mandatory entry was
/// applied; optional entries do not decide it.  This is the
/// all-or-nothing-except-optional policy the registration
/// collaborator is held to.
pub proof fn lemma_verdict_success_iff_mandatory_applied(
    entries: Seq<RegistryEntry>,
    applied: Seq<bool>,
)
    requires
        entries.len() == applied.len(),
    ensures
        first_blocking_failure(entries, applied) is None <==> (forall|j: int|
            0 <= j < entries.len() ==> (#[trigger] entries[j]).optional || applied[j]),
{
    lemma_no_blocking_failure_from(entries, applied, 0);
}

/// No blocking failure at or after `i` means every mandatory entry
/// from `i` on was applied, and the other way round.
proof fn lemma_no_blocking_failure_from(entries: Seq<RegistryEntry>, applied: Seq<bool>, i: int)
    requires
        0 <= i <= entries.len(),
        entries.len() == applied.len(),
    ensures
        first_blocking_failure_from(entries, applied, i) is None <==> (forall|j: int|
            i <= j < entries.len() ==> (#[trigger] entries[j]).optional || applied[j]),
    decreases entries.len() - i,
{
    if i < entries.len() {
        lemma_no_blocking_failure_from(entries, applied, i + 1);
    }
}

pub fn registration_verdict(entries: &Vec<RegistryEntry>, applied: &Vec<bool>) -> (r: Result<
    (),
    usize,
>)
    requires
        entries@.len() == applied@.len(),
    ensures
        first_blocking_failure(entries@, applied@) is None ==> r == Ok::<(), usize>(()),
        first_blocking_failure(entries@, applied@) is Some ==> r == Err::<(), usize>(
            first_blocking_failure(entries@, applied@).unwrap() as usize,
        ),
{
    let n = entries.len();
    let mut i: usize = 0;
    while i < n
        invariant
            i <= n,
            n == entries@.len(),
            entries@.len() == applied@.len(),
            first_blocking_failure(entries@, applied@) == first_blocking_failure_from(
                entries@,
                applied@,
                i as int,
            ),
        decreases n - i,
    {
        if !applied[i] && !entries[i].optional {
            return Err(i);
        }
        i = i + 1;
    }
    Ok(())
}

} // verus!
