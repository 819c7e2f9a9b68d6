use gantry_crane::recreate::{
    hostname_to_keep, image_to_pull, old_image_to_remove, strip_image_defaults, take_over_anonymous_volumes,
    ConfigFields, MountPoint, RecreateAction, RecreatePlan, RecreateStep,
};

fn run(plan: &RecreatePlan, outcomes: &[bool]) -> Vec<RecreateAction> {
    let mut step = RecreateStep::Begin;
    let mut actions = Vec::new();
    let mut ok = true;
    let mut i = 0;
    loop {
        let (next, action) = plan.next(step, ok);
        if next == RecreateStep::Done {
            break;
        }
        actions.push(action);
        step = next;
        ok = outcomes.get(i).copied().unwrap_or(true);
        i += 1;
    }
    actions
}

fn s(v: &str) -> String {
    v.to_string()
}

#[test]
fn successful_recreation() {
    let plan = RecreatePlan::new("web", false, None, Some("nginx"), true);
    assert_eq!(plan.name_temp, "web_old");
    assert_eq!(plan.image, "nginx:latest");
    let actions = run(&plan, &[]);
    assert_eq!(
        actions,
        vec![
            RecreateAction::Pull(s("nginx:latest")),
            RecreateAction::SuspendPolling,
            RecreateAction::Rename { from: s("web"), to: s("web_old") },
            RecreateAction::Stop(s("web_old")),
            RecreateAction::WaitStopped(s("web_old")),
            RecreateAction::Create(s("web")),
            RecreateAction::ConnectNetworks(s("web")),
            RecreateAction::Start(s("web")),
            RecreateAction::Remove(s("web_old")),
            RecreateAction::WaitRemoved(s("web_old")),
            RecreateAction::RemoveOldImage,
            RecreateAction::ResumePolling,
        ]
    );
}

#[test]
fn host_networking_auto_remove_recreation() {
    let plan = RecreatePlan::new("web", true, Some(true), None, true);
    let actions = run(&plan, &[]);
    assert_eq!(
        actions,
        vec![
            RecreateAction::SuspendPolling,
            RecreateAction::Rename { from: s("web"), to: s("web_old") },
            RecreateAction::Stop(s("web_old")),
            RecreateAction::WaitStopped(s("web_old")),
            RecreateAction::Create(s("web")),
            RecreateAction::Start(s("web")),
            RecreateAction::WaitRemoved(s("web_old")),
            RecreateAction::ResumePolling,
        ]
    );
}

#[test]
fn failed_create_restores_old_container() {
    let plan = RecreatePlan::new("web", false, Some(false), None, false);
    // outcomes of: suspend, rename, stop, wait, create (fails)
    let actions = run(&plan, &[true, true, true, true, false]);
    assert_eq!(
        &actions[4..],
        &[
            RecreateAction::Create(s("web")),
            RecreateAction::Rename { from: s("web_old"), to: s("web") },
            RecreateAction::Start(s("web")),
            RecreateAction::ResumePolling,
        ]
    );
}

#[test]
fn failed_start_removes_new_container() {
    let plan = RecreatePlan::new("web", true, None, None, false);
    // outcomes of: suspend, rename, stop, wait, create, start (fails), remove new
    let actions = run(&plan, &[true, true, true, true, true, false, true]);
    assert_eq!(
        &actions[5..],
        &[
            RecreateAction::Start(s("web")),
            RecreateAction::Remove(s("web")),
            RecreateAction::Rename { from: s("web_old"), to: s("web") },
            RecreateAction::Start(s("web")),
            RecreateAction::ResumePolling,
        ]
    );
    let actions = run(&plan, &[true, true, true, true, true, false, false]);
    assert_eq!(&actions[6..], &[RecreateAction::Remove(s("web")), RecreateAction::ResumePolling]);
}

#[test]
fn failed_rename_resumes_at_once() {
    let plan = RecreatePlan::new("web", false, None, None, false);
    let actions = run(&plan, &[true, false]);
    assert_eq!(
        actions,
        vec![
            RecreateAction::SuspendPolling,
            RecreateAction::Rename { from: s("web"), to: s("web_old") },
            RecreateAction::ResumePolling,
        ]
    );
}

#[test]
fn image_tags() {
    assert_eq!(image_to_pull("nginx"), "nginx:latest");
    assert_eq!(image_to_pull("nginx:1.25"), "nginx:1.25");
    assert_eq!(image_to_pull("localhost:5000/app"), "localhost:5000/app");
}

fn strings(v: &[&str]) -> Option<Vec<String>> {
    Some(v.iter().map(|x| x.to_string()).collect())
}

#[test]
fn image_defaults_are_stripped() {
    let image = ConfigFields {
        cmd: strings(&["nginx", "-g"]),
        entrypoint: None,
        user: Some(s("www")),
        working_dir: Some(s("/")),
        env: strings(&["PATH=/bin", "A=1"]),
        labels: Some(vec![(s("maintainer"), s("x")), (s("version"), s("1"))]),
        volumes: strings(&["/data"]),
        exposed_ports: strings(&["80/tcp"]),
    };
    let config = ConfigFields {
        cmd: strings(&["nginx", "-g"]),
        entrypoint: None,
        user: Some(s("root")),
        working_dir: Some(s("/")),
        env: strings(&["PATH=/bin", "A=2", "B=3"]),
        labels: Some(vec![(s("maintainer"), s("x")), (s("version"), s("2")), (s("mine"), s("y"))]),
        volumes: strings(&["/data", "/cache"]),
        exposed_ports: strings(&["80/tcp", "443/tcp"]),
    };
    let r = strip_image_defaults(config, &image);
    assert_eq!(r.cmd, None);
    assert_eq!(r.entrypoint, None);
    assert_eq!(r.user, Some(s("root")));
    assert_eq!(r.working_dir, None);
    assert_eq!(r.env, strings(&["A=2", "B=3"]));
    assert_eq!(r.labels, Some(vec![(s("version"), s("2")), (s("mine"), s("y"))]));
    assert_eq!(r.volumes, strings(&["/cache"]));
    assert_eq!(r.exposed_ports, strings(&["443/tcp"]));
}

#[test]
fn lists_without_image_counterpart_are_kept() {
    let image = ConfigFields {
        cmd: None,
        entrypoint: None,
        user: None,
        working_dir: None,
        env: None,
        labels: None,
        volumes: None,
        exposed_ports: None,
    };
    let config = ConfigFields {
        cmd: strings(&["run"]),
        entrypoint: None,
        user: None,
        working_dir: None,
        env: strings(&["A=1"]),
        labels: Some(vec![(s("a"), s("b"))]),
        volumes: None,
        exposed_ports: None,
    };
    let r = strip_image_defaults(config, &image);
    assert_eq!(r.cmd, strings(&["run"]));
    assert_eq!(r.env, strings(&["A=1"]));
    assert_eq!(r.labels, Some(vec![(s("a"), s("b"))]));
}

fn mount(is_volume: bool, name: Option<&str>, dest: Option<&str>) -> MountPoint {
    MountPoint { is_volume, name: name.map(s), destination: dest.map(s) }
}

#[test]
fn anonymous_volumes_are_taken_over() {
    let mounts = vec![
        mount(true, Some("abc"), Some("/data")),
        mount(false, Some("bind"), Some("/etc")),
        mount(true, Some("named"), Some("/named")),
        mount(true, None, Some("/x")),
    ];
    let binds = Some(vec![s("named:/named"), s("/host:/etc")]);
    let r = take_over_anonymous_volumes(&mounts, binds);
    assert_eq!(r, Some(vec![s("named:/named"), s("/host:/etc"), s("abc:/data")]));

    let r = take_over_anonymous_volumes(&mounts, None);
    assert_eq!(r, Some(vec![s("abc:/data"), s("named:/named")]));

    let r = take_over_anonymous_volumes(&vec![mount(false, Some("a"), Some("/b"))], None);
    assert_eq!(r, None);
}

#[test]
fn default_hostname_is_dropped() {
    let id = "0123456789abcdef0123";
    assert_eq!(hostname_to_keep(Some(id), Some(s("0123456789ab"))), None);
    assert_eq!(hostname_to_keep(Some(id), Some(s("myhost"))), Some(s("myhost")));
    assert_eq!(hostname_to_keep(None, Some(s("0123456789ab"))), Some(s("0123456789ab")));
    assert_eq!(hostname_to_keep(Some(id), None), None);
}

#[test]
fn default_hostname_is_cut_at_twelve_bytes() {
    // 'é' takes two bytes: the first 12 bytes are 11 characters
    let id = "é0123456789abcdef";
    assert_eq!(hostname_to_keep(Some(id), Some(s("é0123456789"))), None);
    assert_eq!(hostname_to_keep(Some(id), Some(s("é0123456789a"))), Some(s("é0123456789a")));
    // Without a hostname, a short id is fine
    assert_eq!(hostname_to_keep(Some("abc"), None), None);
}

#[test]
fn superseded_image_removal() {
    assert_eq!(old_image_to_remove("sha256:aaa", Some("sha256:bbb")), Some(s("aaa")));
    assert_eq!(old_image_to_remove("sha256:aaa", Some("sha256:aaa")), None);
    assert_eq!(old_image_to_remove("sha256:aaa", None), None);
    assert_eq!(old_image_to_remove("aaa", Some("bbb")), None);
}

#[test]
fn failed_pull_gives_up_before_suspending() {
    let plan = RecreatePlan::new("web", false, None, Some("nginx:1.25"), true);
    assert_eq!(plan.image, "nginx:1.25");
    // outcome of the pull
    let actions = run(&plan, &[false]);
    assert_eq!(actions, vec![RecreateAction::Pull(s("nginx:1.25"))]);
}

#[test]
fn pull_without_known_old_image_keeps_images() {
    let plan = RecreatePlan::new("web", true, Some(true), Some("nginx"), false);
    let actions = run(&plan, &[]);
    assert!(actions.contains(&RecreateAction::Pull(s("nginx:latest"))));
    assert!(!actions.contains(&RecreateAction::RemoveOldImage));
    assert_eq!(actions.last(), Some(&RecreateAction::ResumePolling));
}
