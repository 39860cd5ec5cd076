use vstd::prelude::*;

verus! {

/// The SHA-1 digest of `data`, as lower-case hexadecimal text.
pub uninterp spec fn sha1_hex_of(data: Seq<u8>) -> Seq<char>;

/// Relies on sha1's `Sha1` through `digest::Digest::digest`, formatted with
/// `{:x}`: the text depends on the bytes alone.
#[verifier::external_body]
fn sha1_hex(data: &[u8]) -> (r: String)
    ensures
        r@ == sha1_hex_of(data@),
{
    format!("{:x}", <sha1::Sha1 as sha1::Digest>::digest(data))
}

/// The digest of a package file, in the form the device reports installed
/// packages' digests.
pub fn package_digest(data: &Vec<u8>) -> (r: String)
    ensures
        r@ == sha1_hex_of(data@),
{
    sha1_hex(data.as_slice())
}

/// A character with ASCII upper-case letters mapped to lower case.
pub open spec fn ascii_folded(c: char) -> u32 {
    if 'A' <= c && c <= 'Z' {
        (c as u32 + 32) as u32
    } else {
        c as u32
    }
}

/// The two texts are equal up to the case of ASCII letters.
pub open spec fn eq_ignore_ascii_case_spec(a: Seq<char>, b: Seq<char>) -> bool {
    a.len() == b.len() && forall|i: int| 0 <= i < a.len() ==> ascii_folded(a[i]) == ascii_folded(b[i])
}

fn fold_char(c: char) -> (r: u32)
    ensures
        r == ascii_folded(c),
{
    if 'A' <= c && c <= 'Z' {
        c as u32 + 32
    } else {
        c as u32
    }
}

/// Whether two digests name the same content; hexadecimal digits compare
/// without regard to case.
pub fn digests_match(a: &str, b: &str) -> (r: bool)
    ensures
        r == eq_ignore_ascii_case_spec(a@, b@),
{
    let n = a.unicode_len();
    if n != b.unicode_len() {
        return false;
    }
    let mut i: usize = 0;
    while i < n
        invariant
            n == a@.len(),
            n == b@.len(),
            i <= n,
            forall|j: int| 0 <= j < i ==> ascii_folded(a@[j]) == ascii_folded(b@[j]),
        decreases n - i,
    {
        if fold_char(a.get_char(i)) != fold_char(b.get_char(i)) {
            return false;
        }
        i = i + 1;
    }
    true
}

/// What to do with the client package on the device.
#[derive(Clone, Copy, Debug, PartialEq, Eq, Structural)]
pub enum InstallAction {
    /// The installed package has the local package's content.
    Keep,
    /// No package is installed: install the local one.
    Install,
    /// Another content is installed: uninstall it, then install the local one.
    Reinstall,
}

pub open spec fn install_action_spec(installed: Option<Seq<char>>, local: Seq<char>) -> InstallAction {
    match installed {
        None => InstallAction::Install,
        Some(d) => if eq_ignore_ascii_case_spec(d, local) {
            InstallAction::Keep
        } else {
            InstallAction::Reinstall
        },
    }
}

pub open spec fn option_view(o: Option<String>) -> Option<Seq<char>> {
    match o {
        Some(s) => Some(s@),
        None => None,
    }
}

/// The action for an installed digest (`None` where the package is not
/// installed) and the digest of the local package.
pub fn decide_install(installed: &Option<String>, local_digest: &String) -> (r: InstallAction)
    ensures
        r == install_action_spec(option_view(*installed), local_digest@),
{
    match installed {
        None => InstallAction::Install,
        Some(d) => if digests_match(d.as_str(), local_digest.as_str()) {
            InstallAction::Keep
        } else {
            InstallAction::Reinstall
        },
    }
}

/// The action for an installed digest and the bytes of the local package;
/// the local digest is computed only where one is installed.
pub fn package_install_action(installed: &Option<String>, package: &Vec<u8>) -> (r: InstallAction)
    ensures
        r == install_action_spec(option_view(*installed), sha1_hex_of(package@)),
{
    match installed {
        None => InstallAction::Install,
        Some(_) => {
            let local = package_digest(package);
            decide_install(installed, &local)
        },
    }
}

/// A request to the device bridge that changes the installed client.
pub enum InstallCommand {
    Uninstall { package: String },
    Install { apk_path: String },
    GrantPermission { package: String, permission: String },
}

/// The view of an install request: its kind and its text arguments.
pub enum InstallCommandView {
    Uninstall { package: Seq<char> },
    Install { apk_path: Seq<char> },
    GrantPermission { package: Seq<char>, permission: Seq<char> },
}

impl View for InstallCommand {
    type V = InstallCommandView;

    open spec fn view(&self) -> InstallCommandView {
        match self {
            InstallCommand::Uninstall { package } => InstallCommandView::Uninstall {
                package: package@,
            },
            InstallCommand::Install { apk_path } => InstallCommandView::Install {
                apk_path: apk_path@,
            },
            InstallCommand::GrantPermission { package, permission } =>
                InstallCommandView::GrantPermission { package: package@, permission: permission@ },
        }
    }
}

pub open spec fn grants_spec(package: Seq<char>, permissions: Seq<Seq<char>>) -> Seq<InstallCommandView> {
    permissions.map_values(
        |p: Seq<char>| InstallCommandView::GrantPermission { package: package, permission: p },
    )
}

/// The requests that carry out `action`, in order: an uninstall where the
/// installed content differs, then the install and one grant per permission.
pub open spec fn install_commands_spec(
    action: InstallAction,
    package: Seq<char>,
    apk_path: Seq<char>,
    permissions: Seq<Seq<char>>,
) -> Seq<InstallCommandView> {
    match action {
        InstallAction::Keep => Seq::empty(),
        InstallAction::Install => seq![InstallCommandView::Install { apk_path: apk_path }]
            + grants_spec(package, permissions),
        InstallAction::Reinstall => seq![
            InstallCommandView::Uninstall { package: package },
            InstallCommandView::Install { apk_path: apk_path },
        ] + grants_spec(package, permissions),
    }
}

pub open spec fn views_of_commands(v: Seq<InstallCommand>) -> Seq<InstallCommandView> {
    v.map_values(|c: InstallCommand| c@)
}

pub open spec fn views_of_texts(v: Seq<String>) -> Seq<Seq<char>> {
    v.map_values(|s: String| s@)
}

/// The bridge requests that bring the device to the local package, for the
/// candidate `package` and the permissions to grant after an install.
pub fn install_commands(
    action: InstallAction,
    package: &String,
    apk_path: &String,
    permissions: &Vec<String>,
) -> (r: Vec<InstallCommand>)
    ensures
        views_of_commands(r@) == install_commands_spec(
            action,
            package@,
            apk_path@,
            views_of_texts(permissions@),
        ),
        r@.len() == install_commands_spec(
            action,
            package@,
            apk_path@,
            views_of_texts(permissions@),
        ).len(),
        forall|i: int|
            0 <= i < r@.len() ==> #[trigger] r@[i]@ == install_commands_spec(
                action,
                package@,
                apk_path@,
                views_of_texts(permissions@),
            )[i],
{
    let mut r: Vec<InstallCommand> = Vec::new();
    if action == InstallAction::Keep {
        assert(views_of_commands(r@) =~= install_commands_spec(
            action,
            package@,
            apk_path@,
            views_of_texts(permissions@),
        ));
        return r;
    }
    if action == InstallAction::Reinstall {
        r.push(InstallCommand::Uninstall { package: package.clone() });
    }
    r.push(InstallCommand::Install { apk_path: apk_path.clone() });
    let ghost head = views_of_commands(r@);
    let mut i: usize = 0;
    while i < permissions.len()
        invariant
            i <= permissions@.len(),
            head.len() + i == r@.len(),
            views_of_commands(r@) =~= head + grants_spec(
                package@,
                views_of_texts(permissions@).take(i as int),
            ),
        decreases permissions@.len() - i,
    {
        let ghost before = r@;
        r.push(
            InstallCommand::GrantPermission {
                package: package.clone(),
                permission: permissions[i].clone(),
            },
        );
        proof {
            let ps = views_of_texts(permissions@);
            assert(ps.take(i + 1) =~= ps.take(i as int).push(ps[i as int]));
            assert(views_of_commands(r@) =~= views_of_commands(before).push(r@[r@.len() - 1]@));
            assert(grants_spec(package@, ps.take(i + 1)) =~= grants_spec(
                package@,
                ps.take(i as int),
            ).push(InstallCommandView::GrantPermission { package: package@, permission: ps[i as int] }));
            assert(views_of_commands(r@) =~= head + grants_spec(package@, ps.take(i + 1)));
        }
        i = i + 1;
    }
    proof {
        let ps = views_of_texts(permissions@);
        assert(ps.take(i as int) =~= ps);
        assert(views_of_commands(r@).len() == r@.len());
        assert(views_of_commands(r@) =~= install_commands_spec(
            action,
            package@,
            apk_path@,
            ps,
        ));
    }
    r
}

/// The requests of a whole pass: the decision for the installed digest and
/// the local digest, carried out.
pub open spec fn plan_of(
    installed: Option<Seq<char>>,
    local: Seq<char>,
    package: Seq<char>,
    apk_path: Seq<char>,
    permissions: Seq<Seq<char>>,
) -> Seq<InstallCommandView> {
    install_commands_spec(install_action_spec(installed, local), package, apk_path, permissions)
}

/// The install decision table: no installed digest gives an install and every
/// grant; a digest that differs, ignoring case, gives an uninstall, an install
/// and every grant; a matching digest gives no request at all.
pub proof fn lemma_install_decision_table(
    installed: Option<Seq<char>>,
    local: Seq<char>,
    package: Seq<char>,
    apk_path: Seq<char>,
    permissions: Seq<Seq<char>>,
)
    ensures
        (installed is None ==> plan_of(installed, local, package, apk_path, permissions) == seq![
            (InstallCommandView::Install { apk_path: apk_path }),
        ] + grants_spec(package, permissions)),
        (installed matches Some(d) && !eq_ignore_ascii_case_spec(d, local) ==> plan_of(
            installed,
            local,
            package,
            apk_path,
            permissions,
        ) == seq![
            (InstallCommandView::Uninstall { package: package }),
            (InstallCommandView::Install { apk_path: apk_path }),
        ] + grants_spec(package, permissions)),
        (installed matches Some(d) && eq_ignore_ascii_case_spec(d, local) ==> plan_of(
            installed,
            local,
            package,
            apk_path,
            permissions,
        ).len() == 0),
        grants_spec(package, permissions).len() == permissions.len(),
        (forall|i: int|
            0 <= i < permissions.len() ==> (#[trigger] grants_spec(package, permissions)[i] == (
            InstallCommandView::GrantPermission { package: package, permission: permissions[i] }))),
{
}

/// Once the local package is installed, the device reports its digest, and a
/// later pass leaves the package alone.
pub proof fn lemma_install_settles(local: Seq<char>)
    ensures
        (install_action_spec(Some(local), local) == InstallAction::Keep),
{
}

} // verus!
