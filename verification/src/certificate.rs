use crate::text::{joined, same_text};
use vstd::prelude::*;

verus! {

/// Why no new certificate is in place.
#[derive(Clone, Copy, Debug, PartialEq, Eq, Structural)]
pub enum CertError {
    /// The key pair could not be made.
    GenerationFailed,
    /// The files could not be written or put in place.
    WriteFailed,
}

/// A key pair with the certificate that vouches for one address.
#[derive(Clone, Debug, PartialEq, Eq)]
pub struct CertificateMaterial {
    certificate: Vec<u8>,
    private_key: Vec<u8>,
    address: String,
    generated_at: u64,
}

/// The mathematical value of a `CertificateMaterial`.
pub struct MaterialView {
    pub certificate: Seq<u8>,
    pub private_key: Seq<u8>,
    /// The address that the certificate names.
    pub address: Seq<char>,
    /// When the pair was made, in seconds of the Unix clock.
    pub generated_at: u64,
}

impl View for CertificateMaterial {
    type V = MaterialView;

    closed spec fn view(&self) -> MaterialView {
        MaterialView {
            certificate: self.certificate@,
            private_key: self.private_key@,
            address: self.address@,
            generated_at: self.generated_at,
        }
    }
}

impl CertificateMaterial {
    /// Takes up a pair that was made for `address` at the time `generated_at`.
    pub fn new(certificate: Vec<u8>, private_key: Vec<u8>, address: String, generated_at: u64) -> (material: Self)
        ensures
            material@ == (MaterialView {
                certificate: certificate@,
                private_key: private_key@,
                address: address@,
                generated_at,
            }),
    {
        CertificateMaterial { certificate, private_key, address, generated_at }
    }

    pub fn certificate(&self) -> (bytes: &Vec<u8>)
        ensures
            bytes@ == self@.certificate,
    {
        &self.certificate
    }

    pub fn private_key(&self) -> (bytes: &Vec<u8>)
        ensures
            bytes@ == self@.private_key,
    {
        &self.private_key
    }

    pub fn address(&self) -> (address: &str)
        ensures
            address@ == self@.address,
    {
        self.address.as_str()
    }

    pub fn generated_at(&self) -> (at: u64)
        ensures
            at == self@.generated_at,
    {
        self.generated_at
    }

    /// Whether this pair is to be served rather than `other`: it is, unless
    /// `other` was made later.
    pub fn supersedes(&self, other: &CertificateMaterial) -> (newer: bool)
        ensures
            newer == (self@.generated_at >= other@.generated_at),
    {
        self.generated_at >= other.generated_at
    }
}

/// One thing to do to the files.
#[derive(Clone, Debug, PartialEq, Eq)]
pub enum FileStep {
    /// Write `bytes` to a new file at `path`, in place of what is there.
    Write { path: String, bytes: Vec<u8> },
    /// Copy the file at `from` to `to`, in place of what is there. Where
    /// there is no file at `from`, see that there is none at `to` either.
    Keep { from: String, to: String },
    /// Move the file at `from` to `to`, in place of what is there, in one go.
    Rename { from: String, to: String },
    /// Move the file at `from` back to `to`, in one go. Where there is no
    /// file at `from`, remove the one at `to`.
    Restore { from: String, to: String },
    /// Remove the file at `path`, if there is one.
    Remove { path: String },
}

/// The mathematical value of a `FileStep`.
pub enum FileStepView {
    Write { path: Seq<char>, bytes: Seq<u8> },
    Keep { from: Seq<char>, to: Seq<char> },
    Rename { from: Seq<char>, to: Seq<char> },
    Restore { from: Seq<char>, to: Seq<char> },
    Remove { path: Seq<char> },
}

impl View for FileStep {
    type V = FileStepView;

    open spec fn view(&self) -> FileStepView {
        match self {
            FileStep::Write { path, bytes } => FileStepView::Write { path: path@, bytes: bytes@ },
            FileStep::Keep { from, to } => FileStepView::Keep { from: from@, to: to@ },
            FileStep::Rename { from, to } => FileStepView::Rename { from: from@, to: to@ },
            FileStep::Restore { from, to } => FileStepView::Restore { from: from@, to: to@ },
            FileStep::Remove { path } => FileStepView::Remove { path: path@ },
        }
    }
}

/// The views of a list of steps.
pub open spec fn steps_of(steps: Seq<FileStep>) -> Seq<FileStepView> {
    Seq::new(steps.len(), |i: int| steps[i]@)
}

/// Where a file is written before it is moved to `path`.
pub open spec fn staged(path: Seq<char>) -> Seq<char> {
    path + ".tmp"@
}

/// Where the file at `path` is kept while a new one is moved there.
pub open spec fn kept(path: Seq<char>) -> Seq<char> {
    path + ".old"@
}

/// Whether a key at `key_path` and a certificate at `cert_path` can be put
/// in place one after the other: the two are different files, and neither
/// is where the other is written first or where the key is kept meanwhile.
pub open spec fn installable(key_path: Seq<char>, cert_path: Seq<char>) -> bool {
    &&& key_path != cert_path
    &&& staged(key_path) != cert_path
    &&& staged(cert_path) != key_path
    &&& kept(key_path) != cert_path
    &&& kept(key_path) != staged(cert_path)
}

/// The steps that put a pair in place: both files are written in full
/// beside their places, the key that is in place is kept aside, and only
/// then the new files are moved to their places.
pub open spec fn install_plan(key_path: Seq<char>, cert_path: Seq<char>, material: MaterialView) -> Seq<
    FileStepView,
> {
    seq![
        FileStepView::Write { path: staged(key_path), bytes: material.private_key },
        FileStepView::Write { path: staged(cert_path), bytes: material.certificate },
        FileStepView::Keep { from: key_path, to: kept(key_path) },
        FileStepView::Rename { from: staged(key_path), to: key_path },
        FileStepView::Rename { from: staged(cert_path), to: cert_path },
    ]
}

/// The number of steps of an installation.
pub open spec fn plan_length() -> nat {
    5
}

/// The steps that undo an installation that stops after `done` steps of its
/// plan: what was written beside the places is cleared away, and a key that
/// was moved to its place gives way to the one that was there before.
pub open spec fn abandon_plan(key_path: Seq<char>, cert_path: Seq<char>, done: nat) -> Seq<
    FileStepView,
> {
    if done == 1 {
        seq![FileStepView::Remove { path: staged(key_path) }]
    } else if done == 2 {
        seq![
            FileStepView::Remove { path: staged(key_path) },
            FileStepView::Remove { path: staged(cert_path) },
        ]
    } else if done == 3 {
        seq![
            FileStepView::Remove { path: staged(key_path) },
            FileStepView::Remove { path: staged(cert_path) },
            FileStepView::Remove { path: kept(key_path) },
        ]
    } else if done == 4 {
        seq![
            FileStepView::Restore { from: kept(key_path), to: key_path },
            FileStepView::Remove { path: staged(cert_path) },
        ]
    } else {
        Seq::empty()
    }
}

/// The steps that clear away, after an installation that went through, the
/// key that was kept aside.
pub open spec fn tidy_plan(key_path: Seq<char>) -> Seq<FileStepView> {
    seq![FileStepView::Remove { path: kept(key_path) }]
}

/// What an attempt to put a new pair in place comes to: the pair, where it
/// was made and all steps of its plan are `done`.
pub open spec fn outcome_of(made: Option<MaterialView>, done: nat) -> Result<
    MaterialView,
    CertError,
> {
    match made {
        None => Err(CertError::GenerationFailed),
        Some(material) => if done >= plan_length() {
            Ok(material)
        } else {
            Err(CertError::WriteFailed)
        },
    }
}

/// The files after `step`. A move of a file that is not there changes
/// nothing.
pub open spec fn perform(files: Map<Seq<char>, Seq<u8>>, step: FileStepView) -> Map<
    Seq<char>,
    Seq<u8>,
> {
    match step {
        FileStepView::Write { path, bytes } => files.insert(path, bytes),
        FileStepView::Keep { from, to } => if files.contains_key(from) {
            files.insert(to, files[from])
        } else {
            files.remove(to)
        },
        FileStepView::Rename { from, to } => if files.contains_key(from) {
            files.remove(from).insert(to, files[from])
        } else {
            files
        },
        FileStepView::Restore { from, to } => if files.contains_key(from) {
            files.remove(from).insert(to, files[from])
        } else {
            files.remove(to)
        },
        FileStepView::Remove { path } => files.remove(path),
    }
}

/// The files after `steps`, one after the other.
pub open spec fn perform_all(files: Map<Seq<char>, Seq<u8>>, steps: Seq<FileStepView>) -> Map<
    Seq<char>,
    Seq<u8>,
>
    decreases steps.len(),
{
    if steps.len() == 0 {
        files
    } else {
        perform(perform_all(files, steps.drop_last()), steps.last())
    }
}

/// Whether `a` and `b` hold the same at `path`.
pub open spec fn same_at(
    a: Map<Seq<char>, Seq<u8>>,
    b: Map<Seq<char>, Seq<u8>>,
    path: Seq<char>,
) -> bool {
    a.contains_key(path) == b.contains_key(path) && (a.contains_key(path) ==> a[path] == b[path])
}

/// The view of a pair that may be missing.
pub open spec fn material_of(made: Option<CertificateMaterial>) -> Option<MaterialView> {
    match made {
        Some(material) => Some(material@),
        None => None,
    }
}

/// Puts key pairs in place at two fixed paths.
#[derive(Debug)]
pub struct CertificateManager {
    key_path: String,
    cert_path: String,
}

impl CertificateManager {
    /// Where the private key is put.
    pub closed spec fn key_path(&self) -> Seq<char> {
        self.key_path@
    }

    /// Where the certificate is put.
    pub closed spec fn cert_path(&self) -> Seq<char> {
        self.cert_path@
    }

    pub fn new(key_path: String, cert_path: String) -> (manager: Self)
        ensures
            manager.key_path() == key_path@,
            manager.cert_path() == cert_path@,
    {
        CertificateManager { key_path, cert_path }
    }

    /// Lists the steps that put `material` in place. Paths that cannot be
    /// told apart while the files are written are refused.
    pub fn plan(&self, material: &CertificateMaterial) -> (steps: Result<Vec<FileStep>, CertError>)
        ensures
            match steps {
                Ok(list) => installable(self.key_path(), self.cert_path()) && steps_of(list@)
                    == install_plan(self.key_path(), self.cert_path(), material@),
                Err(error) => !installable(self.key_path(), self.cert_path()) && error
                    == CertError::WriteFailed,
            },
    {
        let key_path = self.key_path.as_str();
        let cert_path = self.cert_path.as_str();
        let staged_key = joined(key_path, ".tmp");
        let staged_cert = joined(cert_path, ".tmp");
        let kept_key = joined(key_path, ".old");
        if same_text(key_path, cert_path) || same_text(staged_key.as_str(), cert_path) || same_text(
            staged_cert.as_str(),
            key_path,
        ) || same_text(kept_key.as_str(), cert_path) || same_text(
            kept_key.as_str(),
            staged_cert.as_str(),
        ) {
            return Err(CertError::WriteFailed);
        }
        let mut list: Vec<FileStep> = Vec::new();
        list.push(
            FileStep::Write { path: staged_key.clone(), bytes: material.private_key.clone() },
        );
        list.push(
            FileStep::Write { path: staged_cert.clone(), bytes: material.certificate.clone() },
        );
        list.push(FileStep::Keep { from: String::from_str(key_path), to: kept_key });
        list.push(FileStep::Rename { from: staged_key, to: String::from_str(key_path) });
        list.push(FileStep::Rename { from: staged_cert, to: String::from_str(cert_path) });
        assert(steps_of(list@) =~= install_plan(self.key_path(), self.cert_path(), material@));
        Ok(list)
    }

    /// Lists the steps that undo an installation that stops after `done`
    /// steps of its plan.
    pub fn abandon(&self, done: usize) -> (steps: Vec<FileStep>)
        ensures
            steps_of(steps@) == abandon_plan(self.key_path(), self.cert_path(), done as nat),
    {
        let key_path = self.key_path.as_str();
        let mut list: Vec<FileStep> = Vec::new();
        if done == 4 {
            list.push(
                FileStep::Restore {
                    from: joined(key_path, ".old"),
                    to: String::from_str(key_path),
                },
            );
        }
        if 1 <= done && done <= 3 {
            list.push(FileStep::Remove { path: joined(key_path, ".tmp") });
        }
        if 2 <= done && done <= 4 {
            list.push(FileStep::Remove { path: joined(self.cert_path.as_str(), ".tmp") });
        }
        if done == 3 {
            list.push(FileStep::Remove { path: joined(key_path, ".old") });
        }
        assert(steps_of(list@) =~= abandon_plan(
            self.key_path(),
            self.cert_path(),
            done as nat,
        ));
        list
    }

    /// Lists the steps that clear away what an installation that went
    /// through has kept aside.
    pub fn tidy(&self) -> (steps: Vec<FileStep>)
        ensures
            steps_of(steps@) == tidy_plan(self.key_path()),
    {
        let mut list: Vec<FileStep> = Vec::new();
        list.push(FileStep::Remove { path: joined(self.key_path.as_str(), ".old") });
        assert(steps_of(list@) =~= tidy_plan(self.key_path()));
        list
    }

    /// Says what an attempt to put a new pair in place has come to: `made`
    /// is the pair, where one could be made, and `done` the number of steps
    /// of its plan that went through.
    pub fn outcome(made: Option<CertificateMaterial>, done: usize) -> (outcome: Result<
        CertificateMaterial,
        CertError,
    >)
        ensures
            match outcome {
                Ok(material) => outcome_of(material_of(made), done as nat) == Ok::<
                    MaterialView,
                    CertError,
                >(material@),
                Err(error) => outcome_of(material_of(made), done as nat) == Err::<
                    MaterialView,
                    CertError,
                >(error),
            },
    {
        match made {
            None => Err(CertError::GenerationFailed),
            Some(material) => if done >= 5 {
                Ok(material)
            } else {
                Err(CertError::WriteFailed)
            },
        }
    }
}

/// Once all steps of the plan are done, the key and the certificate of the
/// pair are in place. Once what was kept aside is cleared away as well,
/// nothing is left beside them, and every other file is as it was.
pub proof fn law_install_places_both(
    files: Map<Seq<char>, Seq<u8>>,
    key_path: Seq<char>,
    cert_path: Seq<char>,
    material: MaterialView,
)
    requires
        installable(key_path, cert_path),
    ensures
        ({
            let placed = perform_all(files, install_plan(key_path, cert_path, material));
            let after = perform_all(placed, tidy_plan(key_path));
            &&& placed.contains_key(key_path) && placed[key_path] == material.private_key
            &&& placed.contains_key(cert_path) && placed[cert_path] == material.certificate
            &&& after.contains_key(key_path) && after[key_path] == material.private_key
            &&& after.contains_key(cert_path) && after[cert_path] == material.certificate
            &&& !after.contains_key(staged(key_path))
            &&& !after.contains_key(staged(cert_path))
            &&& !after.contains_key(kept(key_path))
            &&& forall|path: Seq<char>|
                path != key_path && path != cert_path && path != staged(key_path) && path
                    != staged(cert_path) && path != kept(key_path) ==> same_at(
                    after,
                    files,
                    path,
                )
        }),
{
    lemma_paths_apart(key_path, cert_path);
    let plan = install_plan(key_path, cert_path, material);
    lemma_plan_unrolls(files, plan);
    lemma_steps_unroll(perform_all(files, plan), tidy_plan(key_path));
}

/// An installation that stops before its last step has gone through, and
/// is then undone, leaves the key and the certificate that were in place
/// as they were, and nothing of what it wrote beside them.
pub proof fn law_interrupted_install_keeps_files(
    files: Map<Seq<char>, Seq<u8>>,
    key_path: Seq<char>,
    cert_path: Seq<char>,
    material: MaterialView,
    done: nat,
)
    requires
        installable(key_path, cert_path),
        done < plan_length(),
    ensures
        ({
            let stopped = perform_all(
                files,
                install_plan(key_path, cert_path, material).take(done as int),
            );
            let cleared = perform_all(stopped, abandon_plan(key_path, cert_path, done));
            &&& same_at(cleared, files, key_path)
            &&& same_at(cleared, files, cert_path)
            &&& done >= 1 ==> !cleared.contains_key(staged(key_path))
            &&& done >= 2 ==> !cleared.contains_key(staged(cert_path))
            &&& done >= 3 ==> !cleared.contains_key(kept(key_path))
        }),
{
    lemma_paths_apart(key_path, cert_path);
    let plan = install_plan(key_path, cert_path, material);
    lemma_plan_unrolls(files, plan);
    let stopped = perform_all(files, plan.take(done as int));
    lemma_steps_unroll(stopped, abandon_plan(key_path, cert_path, done));
}

/// Until the key is moved, which is after both files are written in full
/// and the key in place is kept aside, the key and the certificate that
/// are in place are as they were.
pub proof fn law_files_change_by_moves_only(
    files: Map<Seq<char>, Seq<u8>>,
    key_path: Seq<char>,
    cert_path: Seq<char>,
    material: MaterialView,
    done: nat,
)
    requires
        installable(key_path, cert_path),
        done <= 3,
    ensures
        same_at(
            perform_all(files, install_plan(key_path, cert_path, material).take(done as int)),
            files,
            key_path,
        ),
        same_at(
            perform_all(files, install_plan(key_path, cert_path, material).take(done as int)),
            files,
            cert_path,
        ),
{
    lemma_paths_apart(key_path, cert_path);
    lemma_plan_unrolls(files, install_plan(key_path, cert_path, material));
}

/// Putting the same pair in place a second time changes nothing.
pub proof fn law_install_is_idempotent(
    files: Map<Seq<char>, Seq<u8>>,
    key_path: Seq<char>,
    cert_path: Seq<char>,
    material: MaterialView,
)
    requires
        installable(key_path, cert_path),
    ensures
        ({
            let plan = install_plan(key_path, cert_path, material);
            let once = perform_all(perform_all(files, plan), tidy_plan(key_path));
            perform_all(perform_all(once, plan), tidy_plan(key_path)) == once
        }),
{
    lemma_paths_apart(key_path, cert_path);
    let plan = install_plan(key_path, cert_path, material);
    let tidy = tidy_plan(key_path);
    let once = perform_all(perform_all(files, plan), tidy);
    lemma_plan_unrolls(files, plan);
    lemma_steps_unroll(perform_all(files, plan), tidy);
    lemma_plan_unrolls(once, plan);
    lemma_steps_unroll(perform_all(once, plan), tidy);
    assert(perform_all(perform_all(once, plan), tidy) =~= once);
}

proof fn lemma_suffix_apart(a: Seq<char>, b: Seq<char>, suffix: Seq<char>)
    requires
        a != b,
    ensures
        a + suffix != b + suffix,
{
    if a + suffix == b + suffix {
        assert((a + suffix).len() == a.len() + suffix.len());
        assert((b + suffix).len() == b.len() + suffix.len());
        assert(a =~= (a + suffix).subrange(0, a.len() as int));
        assert(b =~= (b + suffix).subrange(0, b.len() as int));
    }
}

proof fn lemma_paths_apart(key_path: Seq<char>, cert_path: Seq<char>)
    requires
        key_path != cert_path,
    ensures
        staged(key_path) != key_path,
        staged(cert_path) != cert_path,
        kept(key_path) != key_path,
        kept(key_path) != staged(key_path),
        staged(key_path) != staged(cert_path),
{
    reveal_strlit(".tmp");
    reveal_strlit(".old");
    assert(staged(key_path).len() == key_path.len() + 4);
    assert(staged(cert_path).len() == cert_path.len() + 4);
    assert(kept(key_path).len() == key_path.len() + 4);
    assert(kept(key_path)[key_path.len() as int + 3] == 'd');
    assert(staged(key_path)[key_path.len() as int + 3] == 'p');
    lemma_suffix_apart(key_path, cert_path, ".tmp"@);
}

proof fn lemma_step_unrolls(files: Map<Seq<char>, Seq<u8>>, steps: Seq<FileStepView>, k: int)
    requires
        0 <= k < steps.len(),
    ensures
        perform_all(files, steps.take(k + 1)) == perform(
            perform_all(files, steps.take(k)),
            steps[k],
        ),
{
    assert(steps.take(k + 1).drop_last() =~= steps.take(k));
    assert(steps.take(k + 1).last() == steps[k]);
}

proof fn lemma_steps_unroll(files: Map<Seq<char>, Seq<u8>>, steps: Seq<FileStepView>)
    requires
        steps.len() <= 3,
    ensures
        perform_all(files, steps) == if steps.len() == 0 {
            files
        } else if steps.len() == 1 {
            perform(files, steps[0])
        } else if steps.len() == 2 {
            perform(perform(files, steps[0]), steps[1])
        } else {
            perform(perform(perform(files, steps[0]), steps[1]), steps[2])
        },
{
    assert(steps.take(steps.len() as int) =~= steps);
    assert(perform_all(files, steps.take(0)) == files);
    if steps.len() >= 1 {
        lemma_step_unrolls(files, steps, 0);
    }
    if steps.len() >= 2 {
        lemma_step_unrolls(files, steps, 1);
    }
    if steps.len() >= 3 {
        lemma_step_unrolls(files, steps, 2);
    }
}

proof fn lemma_plan_unrolls(files: Map<Seq<char>, Seq<u8>>, plan: Seq<FileStepView>)
    requires
        plan.len() == 5,
    ensures
        perform_all(files, plan.take(0)) == files,
        perform_all(files, plan.take(1)) == perform(files, plan[0]),
        perform_all(files, plan.take(2)) == perform(perform_all(files, plan.take(1)), plan[1]),
        perform_all(files, plan.take(3)) == perform(perform_all(files, plan.take(2)), plan[2]),
        perform_all(files, plan.take(4)) == perform(perform_all(files, plan.take(3)), plan[3]),
        perform_all(files, plan) == perform(perform_all(files, plan.take(4)), plan[4]),
{
    assert(plan.take(5) =~= plan);
    assert(perform_all(files, plan.take(0)) == files);
    lemma_step_unrolls(files, plan, 0);
    lemma_step_unrolls(files, plan, 1);
    lemma_step_unrolls(files, plan, 2);
    lemma_step_unrolls(files, plan, 3);
    lemma_step_unrolls(files, plan, 4);
}

} // verus!
