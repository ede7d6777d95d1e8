//! The package record and the small enumerations around it: repository,
//! show mode and sort key.

use vstd::prelude::*;
use crate::error::AppError;
use crate::text::{seq_eq_ci, str_eq_ci};

verus! {

/// The repository a package comes from.
#[derive(Clone, Copy, Debug, PartialEq, Eq, Structural)]
pub enum Repository {
    Core,
    Extra,
    Multilib,
    Community,
    AUR,
    Unknown,
}

impl Repository {
    /// The display name, also the key the repository filters match against.
    pub open spec fn spec_name(self) -> Seq<char> {
        match self {
            Repository::Core => "Core"@,
            Repository::Extra => "Extra"@,
            Repository::Multilib => "Multilib"@,
            Repository::Community => "Community"@,
            Repository::AUR => "AUR"@,
            Repository::Unknown => "Unknown"@,
        }
    }

    pub fn name(&self) -> (r: String)
        ensures
            r@ == self.spec_name(),
    {
        match self {
            Repository::Core => String::from_str("Core"),
            Repository::Extra => String::from_str("Extra"),
            Repository::Multilib => String::from_str("Multilib"),
            Repository::Community => String::from_str("Community"),
            Repository::AUR => String::from_str("AUR"),
            Repository::Unknown => String::from_str("Unknown"),
        }
    }

    /// Which repository a name denotes, up to ASCII case. Anything that is
    /// not a known repository counts as AUR ("local" included).
    pub open spec fn spec_from_name(s: Seq<char>) -> Repository {
        if seq_eq_ci(s, "core"@) {
            Repository::Core
        } else if seq_eq_ci(s, "extra"@) {
            Repository::Extra
        } else if seq_eq_ci(s, "multilib"@) {
            Repository::Multilib
        } else if seq_eq_ci(s, "community"@) {
            Repository::Community
        } else {
            Repository::AUR
        }
    }

    pub fn from_name(s: &str) -> (r: Repository)
        ensures
            r == Repository::spec_from_name(s@),
    {
        if str_eq_ci(s, "core") {
            Repository::Core
        } else if str_eq_ci(s, "extra") {
            Repository::Extra
        } else if str_eq_ci(s, "multilib") {
            Repository::Multilib
        } else if str_eq_ci(s, "community") {
            Repository::Community
        } else {
            Repository::AUR
        }
    }
}

/// Which base catalog is shown and which extra predicate applies to it.
#[derive(Clone, Copy, Debug, PartialEq, Eq, Structural)]
pub enum ShowMode {
    AllInstalled,
    ExplicitlyInstalled,
    Dependencies,
    Orphans,
    AllAvailable,
}

impl ShowMode {
    /// The display name, also what action whitelists and blacklists hold.
    pub open spec fn spec_name(self) -> Seq<char> {
        match self {
            ShowMode::AllInstalled => "All Installed"@,
            ShowMode::ExplicitlyInstalled => "Explicitly Installed"@,
            ShowMode::Dependencies => "Dependencies"@,
            ShowMode::Orphans => "Orphans"@,
            ShowMode::AllAvailable => "All Available"@,
        }
    }

    pub fn name(&self) -> (r: String)
        ensures
            r@ == self.spec_name(),
    {
        match self {
            ShowMode::AllInstalled => String::from_str("All Installed"),
            ShowMode::ExplicitlyInstalled => String::from_str("Explicitly Installed"),
            ShowMode::Dependencies => String::from_str("Dependencies"),
            ShowMode::Orphans => String::from_str("Orphans"),
            ShowMode::AllAvailable => String::from_str("All Available"),
        }
    }
}

/// The comparator of the visible list.
#[derive(Clone, Copy, Debug, PartialEq, Eq, Hash, Structural)]
pub enum SortKey {
    Name,
    Size,
    InstallDate,
    UpdateDate,
    Popularity,
}

impl SortKey {
    pub open spec fn spec_label(self) -> Seq<char> {
        match self {
            SortKey::Name => "Name"@,
            SortKey::Size => "Size"@,
            SortKey::InstallDate => "Installed Date"@,
            SortKey::UpdateDate => "Update Date"@,
            SortKey::Popularity => "Popularity"@,
        }
    }

    pub fn label(&self) -> (r: String)
        ensures
            r@ == self.spec_label(),
    {
        match self {
            SortKey::Name => String::from_str("Name"),
            SortKey::Size => String::from_str("Size"),
            SortKey::InstallDate => String::from_str("Installed Date"),
            SortKey::UpdateDate => String::from_str("Update Date"),
            SortKey::Popularity => String::from_str("Popularity"),
        }
    }

    /// Which sort key a name denotes, up to ASCII case; `None` for any
    /// other name.
    pub open spec fn spec_from_name(s: Seq<char>) -> Option<SortKey> {
        if seq_eq_ci(s, "name"@) {
            Some(SortKey::Name)
        } else if seq_eq_ci(s, "size"@) {
            Some(SortKey::Size)
        } else if seq_eq_ci(s, "installed"@) {
            Some(SortKey::InstallDate)
        } else if seq_eq_ci(s, "updated"@) {
            Some(SortKey::UpdateDate)
        } else if seq_eq_ci(s, "popularity"@) {
            Some(SortKey::Popularity)
        } else {
            None
        }
    }

    /// Parses a sort-key name; an unknown name is invalid input.
    pub fn from_name(s: &str) -> (r: Result<SortKey, AppError>)
        ensures
            r is Ok <==> SortKey::spec_from_name(s@) is Some,
            r matches Ok(k) ==> Some(k) == SortKey::spec_from_name(s@),
            r matches Err(e) ==> (e matches AppError::InvalidInput(m) && m@ == "Invalid sort key: "@
                + s@),
    {
        if str_eq_ci(s, "name") {
            Ok(SortKey::Name)
        } else if str_eq_ci(s, "size") {
            Ok(SortKey::Size)
        } else if str_eq_ci(s, "installed") {
            Ok(SortKey::InstallDate)
        } else if str_eq_ci(s, "updated") {
            Ok(SortKey::UpdateDate)
        } else if str_eq_ci(s, "popularity") {
            Ok(SortKey::Popularity)
        } else {
            let mut msg = String::from_str("Invalid sort key: ");
            msg.append(s);
            Err(AppError::InvalidInput(msg))
        }
    }
}

/// The abstract value of a `Package`.
pub ghost struct PackageV {
    pub name: Seq<char>,
    pub version: Seq<char>,
    pub description: Seq<char>,
    pub repository: Repository,
    pub install_date: u64,
    pub build_date: u64,
    pub size_kib: u64,
    pub is_explicit: bool,
    pub tags: Seq<Seq<char>>,
    pub popularity: Option<u64>,
    pub num_votes: Option<u32>,
}

/// One package record, immutable per load but for its tag list.
/// Install and build times are seconds since the epoch; the size is in KiB;
/// the popularity score is scaled to an integer, `None` when unknown.
pub struct Package {
    pub name: String,
    pub version: String,
    pub description: String,
    pub repository: Repository,
    pub install_date: u64,
    pub build_date: u64,
    pub size_kib: u64,
    pub is_explicit: bool,
    pub tags: Vec<String>,
    pub popularity: Option<u64>,
    pub num_votes: Option<u32>,
}

impl View for Package {
    type V = PackageV;

    open spec fn view(&self) -> PackageV {
        PackageV {
            name: self.name@,
            version: self.version@,
            description: self.description@,
            repository: self.repository,
            install_date: self.install_date,
            build_date: self.build_date,
            size_kib: self.size_kib,
            is_explicit: self.is_explicit,
            tags: self.tags.deep_view(),
            popularity: self.popularity,
            num_votes: self.num_votes,
        }
    }
}

impl DeepView for Package {
    type V = PackageV;

    open spec fn deep_view(&self) -> PackageV {
        self.view()
    }
}

impl Clone for Package {
    fn clone(&self) -> (r: Self)
        ensures
            r@ == self@,
    {
        let r = Package {
            name: self.name.clone(),
            version: self.version.clone(),
            description: self.description.clone(),
            repository: self.repository,
            install_date: self.install_date,
            build_date: self.build_date,
            size_kib: self.size_kib,
            is_explicit: self.is_explicit,
            tags: self.tags.clone(),
            popularity: self.popularity,
            num_votes: self.num_votes,
        };
        proof {
            assert(r.tags.deep_view() =~= self.tags.deep_view());
        }
        r
    }
}

} // verus!
