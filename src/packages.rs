use vstd::prelude::*;

verus! {

/// Identifier of the client distributed through the store.
pub open spec fn store_package() -> Seq<char> {
    "alvr.client"@
}

/// Identifier of the stable client distributed on GitHub.
pub open spec fn github_stable_package() -> Seq<char> {
    "alvr.client.stable"@
}

/// Identifier of the development client distributed on GitHub.
pub open spec fn github_dev_package() -> Seq<char> {
    "alvr.client.dev"@
}

/// Which build of the client is wanted.
pub enum ClientFlavor {
    Store,
    Github,
    Custom(String),
}

/// The package identifiers to probe, most preferred first, for a flavor and
/// the stability of the running build.
pub open spec fn application_ids_spec(flavor: ClientFlavor, stable: bool) -> Seq<Seq<char>> {
    match flavor {
        ClientFlavor::Store => if stable {
            seq![store_package(), github_stable_package()]
        } else {
            seq![github_dev_package()]
        },
        ClientFlavor::Github => if stable {
            seq![github_stable_package(), store_package()]
        } else {
            seq![github_dev_package()]
        },
        ClientFlavor::Custom(name) => if stable {
            seq![name@, store_package(), github_stable_package()]
        } else {
            seq![name@, github_dev_package()]
        },
    }
}

/// The candidate package identifiers for `flavor`, given whether the running
/// build is a stable one.
pub fn get_application_ids(flavor: &ClientFlavor, stable: bool) -> (r: Vec<String>)
    ensures
        r@.len() == application_ids_spec(*flavor, stable).len(),
        forall|i: int|
            0 <= i < r@.len() ==> #[trigger] r@[i]@ == application_ids_spec(*flavor, stable)[i],
{
    let store = "alvr.client".to_owned();
    let github_stable = "alvr.client.stable".to_owned();
    let github_dev = "alvr.client.dev".to_owned();
    let r = match flavor {
        ClientFlavor::Store => if stable {
            vec![store, github_stable]
        } else {
            vec![github_dev]
        },
        ClientFlavor::Github => if stable {
            vec![github_stable, store]
        } else {
            vec![github_dev]
        },
        ClientFlavor::Custom(name) => if stable {
            vec![name.clone(), store, github_stable]
        } else {
            vec![name.clone(), github_dev]
        },
    };
    r
}

/// `i` is the first index whose flag is set.
pub open spec fn is_first_set(flags: Seq<bool>, i: int) -> bool {
    0 <= i < flags.len() && flags[i] && forall|j: int| 0 <= j < i ==> !flags[j]
}

/// The first candidate that the device reports as installed; `installed[i]`
/// says whether `application_ids[i]` is installed (a failed query counts as
/// not installed).
pub fn get_process_name(application_ids: &Vec<String>, installed: &Vec<bool>) -> (r: Option<String>)
    requires
        application_ids@.len() == installed@.len(),
    ensures
        r is None <==> forall|i: int| 0 <= i < installed@.len() ==> !installed@[i],
        r matches Some(name) ==> exists|i: int|
            is_first_set(installed@, i) && name@ == application_ids@[i]@,
{
    let mut i: usize = 0;
    while i < installed.len()
        invariant
            i <= installed@.len(),
            application_ids@.len() == installed@.len(),
            forall|j: int| 0 <= j < i ==> !installed@[j],
        decreases installed@.len() - i,
    {
        if installed[i] {
            let name = application_ids[i].clone();
            assert(is_first_set(installed@, i as int));
            return Some(name);
        }
        i = i + 1;
    }
    None
}

} // verus!
