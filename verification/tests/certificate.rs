use polybot::certificate::{CertError, CertificateManager, CertificateMaterial, FileStep};
use std::collections::BTreeMap;

fn material() -> CertificateMaterial {
    CertificateMaterial::new(vec![1, 2, 3], vec![9, 8], "203.0.113.9".to_string(), 1_700_000_000)
}

#[test]
fn material_keeps_what_it_was_made_with() {
    let material = material();
    assert_eq!(material.certificate(), &vec![1, 2, 3]);
    assert_eq!(material.private_key(), &vec![9, 8]);
    assert_eq!(material.address(), "203.0.113.9");
    assert_eq!(material.generated_at(), 1_700_000_000);
}

#[test]
fn later_material_supersedes_earlier() {
    let earlier = material();
    let later = CertificateMaterial::new(vec![4], vec![5], "203.0.113.9".to_string(), 1_700_000_060);
    assert!(later.supersedes(&earlier));
    assert!(!earlier.supersedes(&later));
    assert!(earlier.supersedes(&earlier));
}

#[test]
fn files_are_written_aside_and_then_moved() {
    let manager = CertificateManager::new("/etc/bot/key.pem".to_string(), "/etc/bot/cert.pem".to_string());
    assert_eq!(
        manager.plan(&material()),
        Ok(vec![
            FileStep::Write { path: "/etc/bot/key.pem.tmp".to_string(), bytes: vec![9, 8] },
            FileStep::Write { path: "/etc/bot/cert.pem.tmp".to_string(), bytes: vec![1, 2, 3] },
            FileStep::Keep {
                from: "/etc/bot/key.pem".to_string(),
                to: "/etc/bot/key.pem.old".to_string(),
            },
            FileStep::Rename {
                from: "/etc/bot/key.pem.tmp".to_string(),
                to: "/etc/bot/key.pem".to_string(),
            },
            FileStep::Rename {
                from: "/etc/bot/cert.pem.tmp".to_string(),
                to: "/etc/bot/cert.pem".to_string(),
            },
        ])
    );
}

#[test]
fn paths_that_run_into_each_other_are_refused() {
    let same = CertificateManager::new("a.pem".to_string(), "a.pem".to_string());
    assert_eq!(same.plan(&material()), Err(CertError::WriteFailed));
    let key_aside = CertificateManager::new("a.pem".to_string(), "a.pem.tmp".to_string());
    assert_eq!(key_aside.plan(&material()), Err(CertError::WriteFailed));
    let cert_aside = CertificateManager::new("a.pem.tmp".to_string(), "a.pem".to_string());
    assert_eq!(cert_aside.plan(&material()), Err(CertError::WriteFailed));
    let cert_kept = CertificateManager::new("a.pem".to_string(), "a.pem.old".to_string());
    assert_eq!(cert_kept.plan(&material()), Err(CertError::WriteFailed));
    let kept_aside = CertificateManager::new("a.old.tmp".to_string(), "a.old".to_string());
    assert_eq!(kept_aside.plan(&material()), Err(CertError::WriteFailed));
    let apart = CertificateManager::new("a.pem".to_string(), "a.pem.tmp.tmp".to_string());
    assert!(apart.plan(&material()).is_ok());
}

#[test]
fn failures_are_named_by_their_stage() {
    assert_eq!(CertificateManager::outcome(None, 0), Err(CertError::GenerationFailed));
    assert_eq!(CertificateManager::outcome(None, 4), Err(CertError::GenerationFailed));
    for done in 0..5 {
        assert_eq!(CertificateManager::outcome(Some(material()), done), Err(CertError::WriteFailed));
    }
    assert_eq!(CertificateManager::outcome(Some(material()), 5), Ok(material()));
    assert_eq!(CertificateManager::outcome(Some(material()), usize::MAX), Ok(material()));
}

#[test]
fn what_was_written_aside_is_cleared_away() {
    let manager = CertificateManager::new("key.pem".to_string(), "cert.pem".to_string());
    let key = FileStep::Remove { path: "key.pem.tmp".to_string() };
    let cert = FileStep::Remove { path: "cert.pem.tmp".to_string() };
    let old = FileStep::Remove { path: "key.pem.old".to_string() };
    let back = FileStep::Restore { from: "key.pem.old".to_string(), to: "key.pem".to_string() };
    assert_eq!(manager.abandon(0), vec![]);
    assert_eq!(manager.abandon(1), vec![key.clone()]);
    assert_eq!(manager.abandon(2), vec![key.clone(), cert.clone()]);
    assert_eq!(manager.abandon(3), vec![key, cert.clone(), old.clone()]);
    assert_eq!(manager.abandon(4), vec![back, cert]);
    assert_eq!(manager.abandon(5), vec![]);
    assert_eq!(manager.abandon(usize::MAX), vec![]);
    assert_eq!(manager.tidy(), vec![old]);
}

/// Files by their paths, and the steps carried out on them.
fn carry_out(files: &mut BTreeMap<String, Vec<u8>>, step: &FileStep) {
    match step {
        FileStep::Write { path, bytes } => {
            files.insert(path.clone(), bytes.clone());
        }
        FileStep::Keep { from, to } => match files.get(from).cloned() {
            Some(bytes) => {
                files.insert(to.clone(), bytes);
            }
            None => {
                files.remove(to);
            }
        },
        FileStep::Rename { from, to } => {
            if let Some(bytes) = files.remove(from) {
                files.insert(to.clone(), bytes);
            }
        }
        FileStep::Restore { from, to } => match files.remove(from) {
            Some(bytes) => {
                files.insert(to.clone(), bytes);
            }
            None => {
                files.remove(to);
            }
        },
        FileStep::Remove { path } => {
            files.remove(path);
        }
    }
}

fn starting_points() -> Vec<BTreeMap<String, Vec<u8>>> {
    let both = BTreeMap::from([
        ("key.pem".to_string(), vec![7u8]),
        ("cert.pem".to_string(), vec![6u8]),
        ("other".to_string(), vec![5u8]),
    ]);
    let mut littered = both.clone();
    littered.insert("key.pem.old".to_string(), vec![4u8]);
    littered.insert("key.pem.tmp".to_string(), vec![3u8]);
    littered.insert("cert.pem.tmp".to_string(), vec![2u8]);
    let mut no_key = both.clone();
    no_key.remove("key.pem");
    let mut no_key_littered = littered.clone();
    no_key_littered.remove("key.pem");
    vec![BTreeMap::new(), both, littered, no_key, no_key_littered]
}

#[test]
fn an_installation_that_stops_anywhere_leaves_the_files_as_they_were() {
    let manager = CertificateManager::new("key.pem".to_string(), "cert.pem".to_string());
    let steps = manager.plan(&material()).unwrap();
    assert_eq!(steps.len(), 5);
    for before in starting_points() {
        for done in 0..steps.len() {
            let mut files = before.clone();
            for step in &steps[..done] {
                carry_out(&mut files, step);
            }
            for step in manager.abandon(done) {
                carry_out(&mut files, &step);
            }
            assert_eq!(files.get("key.pem"), before.get("key.pem"), "after {} steps", done);
            assert_eq!(files.get("cert.pem"), before.get("cert.pem"), "after {} steps", done);
            assert_eq!(files.get("other"), before.get("other"));
            if done >= 1 {
                assert_eq!(files.get("key.pem.tmp"), None);
            }
            if done >= 2 {
                assert_eq!(files.get("cert.pem.tmp"), None);
            }
            if done >= 3 {
                assert_eq!(files.get("key.pem.old"), None);
            }
            assert_eq!(
                CertificateManager::outcome(Some(material()), done),
                Err(CertError::WriteFailed)
            );
        }
    }
}

#[test]
fn an_installation_that_goes_through_puts_both_files_in_place() {
    let manager = CertificateManager::new("key.pem".to_string(), "cert.pem".to_string());
    let steps = manager.plan(&material()).unwrap();
    for before in starting_points() {
        let mut files = before.clone();
        for round in 0..2 {
            for step in &steps {
                carry_out(&mut files, step);
            }
            assert_eq!(files.get("key.pem"), Some(&vec![9u8, 8]), "round {}", round);
            assert_eq!(files.get("cert.pem"), Some(&vec![1u8, 2, 3]));
            for step in manager.tidy() {
                carry_out(&mut files, &step);
            }
            let mut expected = BTreeMap::from([
                ("key.pem".to_string(), vec![9u8, 8]),
                ("cert.pem".to_string(), vec![1u8, 2, 3]),
            ]);
            if let Some(other) = before.get("other") {
                expected.insert("other".to_string(), other.clone());
            }
            assert_eq!(files, expected);
        }
    }
}
