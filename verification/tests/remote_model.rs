use deploy_docs::config::default_config;
use deploy_docs::job::DeployJob;
use deploy_docs::job::JobState;
use deploy_docs::remote::RemoteHostModel;
use deploy_docs::run::run_succeeding;
use deploy_docs::transcript::ShellCommand;

fn members() -> Vec<String> {
    vec![
        String::from("index.html"),
        String::from("api.html"),
        String::from("styles.css"),
    ]
}

#[test]
fn successful_run_replaces_directory_contents() {
    let mut job = DeployJob::new(default_config());
    let mut remote = RemoteHostModel::new(
        false,
        vec![String::from("stale.html"), String::from("leftover.txt")],
    );
    let sent = run_succeeding(&mut job, &mut remote, &members());
    assert_eq!(job.state, JobState::Done);
    assert_eq!(
        sent,
        vec![
            ShellCommand::ChangeDir,
            ShellCommand::RemoveAll,
            ShellCommand::CopyTarball,
            ShellCommand::ExtractTarball,
            ShellCommand::Exit,
        ]
    );
    assert!(remote.home_has_tarball);
    // Exactly the tarball and its extracted contents; nothing from before
    // the run survives.
    assert_eq!(
        remote.dir_files,
        vec![
            String::from("ccp2.tar.gz"),
            String::from("index.html"),
            String::from("api.html"),
            String::from("styles.css"),
        ]
    );
}

#[test]
fn rerun_reproduces_the_same_remote_state() {
    let mut job = DeployJob::new(default_config());
    let mut remote = RemoteHostModel::new(false, vec![String::from("old.html")]);
    run_succeeding(&mut job, &mut remote, &members());
    let after_first = remote.dir_files.clone();

    let mut second = DeployJob::new(default_config());
    let sent = run_succeeding(&mut second, &mut remote, &members());
    assert_eq!(second.state, JobState::Done);
    assert_eq!(sent.len(), 5);
    assert_eq!(remote.dir_files, after_first);
    assert!(remote.home_has_tarball);
}

#[test]
fn remove_all_clears_the_directory() {
    let mut remote = RemoteHostModel::new(true, vec![String::from("a"), String::from("b")]);
    remote.apply_command(ShellCommand::RemoveAll, &String::from("ccp2.tar.gz"), &members());
    assert_eq!(remote.dir_files, Vec::<String>::new());
    assert!(remote.home_has_tarball);
}

#[test]
fn copy_does_nothing_without_the_upload() {
    let mut remote = RemoteHostModel::new(false, Vec::new());
    remote.apply_command(ShellCommand::CopyTarball, &String::from("ccp2.tar.gz"), &members());
    assert_eq!(remote.dir_files, Vec::<String>::new());
}

#[test]
fn extract_does_nothing_without_the_tarball() {
    let mut remote = RemoteHostModel::new(true, vec![String::from("other.txt")]);
    remote.apply_command(ShellCommand::ExtractTarball, &String::from("ccp2.tar.gz"), &members());
    assert_eq!(remote.dir_files, vec![String::from("other.txt")]);
}

#[test]
fn change_dir_and_exit_touch_nothing() {
    let mut remote = RemoteHostModel::new(true, vec![String::from("ccp2.tar.gz")]);
    remote.apply_command(ShellCommand::ChangeDir, &String::from("ccp2.tar.gz"), &members());
    remote.apply_command(ShellCommand::Exit, &String::from("ccp2.tar.gz"), &members());
    assert_eq!(remote.dir_files, vec![String::from("ccp2.tar.gz")]);
    assert!(remote.home_has_tarball);
}
