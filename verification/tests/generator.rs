use hpc_sbatch::command::{has_sh_extension, resolve_command};
use hpc_sbatch::errors::SubmitError;
use hpc_sbatch::image::{
    container_image, image_for_container, parse_image, podman_args_for_image,
    qualified_image_name, tag_warning, volume_args_for_container, Container, Image,
};
use hpc_sbatch::numbers::u64_to_string;
use hpc_sbatch::render::{
    plan_array, plan_single, render_single_script, sbatch_array_flag, sbatch_argv_array,
    sbatch_argv_single,
};
use hpc_sbatch::tasks::quote_task_lines;
use hpc_sbatch::text::{join_with, split_whitespace_args, trim};

const FREESURFER_PODMAN_ARGS: &str = "-v /mnt/apps/etc/fs_license.txt:/usr/local/freesurfer/.license:ro -v /opt/matlab/runtime/R2019b/v97/:/usr/local/freesurfer/MCRv97 -e FS_LICENSE=/usr/local/freesurfer/.license";

#[test]
fn shorthand_matches_case_insensitively() {
    for s in ["freesurfer", "FreeSurfer", "FREESURFER", "fReEsUrFeR"] {
        match parse_image(s) {
            Image::Freesurfer => {}
            Image::QualifiedName(_) => panic!("{s} should select the Freesurfer family"),
        }
    }
}

#[test]
fn shorthand_family_has_fixed_extra_args() {
    let a = podman_args_for_image(&parse_image("FreeSurfer"));
    let b = podman_args_for_image(&parse_image("FREESURFER"));
    assert_eq!(a, FREESURFER_PODMAN_ARGS);
    assert_eq!(a, b);
}

#[test]
fn unknown_image_passes_through_byte_for_byte() {
    let raw = "docker.io/library/ubuntu:22.04";
    match parse_image(raw) {
        Image::QualifiedName(n) => assert_eq!(n, raw),
        Image::Freesurfer => panic!("a qualified name must pass through"),
    }
    assert_eq!(podman_args_for_image(&parse_image(raw)), "");
}

#[test]
fn near_miss_shorthands_pass_through() {
    for s in ["freesurfer2", "freesurfe", "free surfer", ""] {
        match parse_image(s) {
            Image::QualifiedName(n) => assert_eq!(n, s),
            Image::Freesurfer => panic!("{s:?} must not select the Freesurfer family"),
        }
    }
}

#[test]
fn tag_override_on_qualified_name_warns_but_is_ignored() {
    let image = parse_image("quay.io/some/image:1.0");
    let tag = Some("9.9".to_string());
    let warning = tag_warning(&image, &tag);
    assert_eq!(warning, Some("WARN: ignoring tag \"9.9\"".to_string()));
    let name = qualified_image_name(image, tag);
    assert_eq!(name, "quay.io/some/image:1.0");
}

#[test]
fn no_warning_without_tag_or_for_shorthand() {
    assert_eq!(tag_warning(&parse_image("quay.io/x"), &None), None);
    assert_eq!(
        tag_warning(&parse_image("freesurfer"), &Some("8.0.0".to_string())),
        None
    );
}

#[test]
fn freesurfer_tag_defaults_and_overrides() {
    let name = qualified_image_name(Image::Freesurfer, None);
    assert_eq!(name, "docker.io/freesurfer/freesurfer:7.3.2");
    let name = qualified_image_name(Image::Freesurfer, Some("7.4.0".to_string()));
    assert_eq!(name, "docker.io/freesurfer/freesurfer:7.4.0");
}

#[test]
fn legacy_container_image_and_volumes() {
    assert_eq!(
        container_image(Container::Freesurfer),
        Some("freesurfer/freesurfer:7.3.2")
    );
    assert_eq!(container_image(Container::Other), None);
    assert_eq!(
        volume_args_for_container(Container::Freesurfer),
        FREESURFER_PODMAN_ARGS
    );
    assert_eq!(volume_args_for_container(Container::Other), "");
}

#[test]
fn legacy_other_container_requires_explicit_image() {
    match image_for_container(Container::Other, None) {
        Err(SubmitError::MissingImageError) => {}
        _ => panic!("missing --image must be an error"),
    }
    let err = image_for_container(Container::Other, None).unwrap_err();
    assert_eq!(
        err.message(),
        "--image must be specified if \"other\" container is chosen"
    );
    assert_eq!(
        image_for_container(Container::Other, Some("a/b:1".to_string())).unwrap(),
        "a/b:1"
    );
    assert_eq!(
        image_for_container(Container::Freesurfer, None).unwrap(),
        "freesurfer/freesurfer:7.3.2"
    );
}

#[test]
fn task_lines_are_trimmed_filtered_and_quoted() {
    let tasks = quote_task_lines("A\n  B  \n\nC\n");
    assert_eq!(tasks, vec!["\"A\"", "\"B\"", "\"C\""]);
}

#[test]
fn task_lines_edge_cases() {
    assert_eq!(quote_task_lines(""), Vec::<String>::new());
    assert_eq!(quote_task_lines(" \n\t\n"), Vec::<String>::new());
    assert_eq!(quote_task_lines("one two"), vec!["\"one two\""]);
    assert_eq!(quote_task_lines("x\r\ny"), vec!["\"x\"", "\"y\""]);
    assert_eq!(quote_task_lines("last"), vec!["\"last\""]);
}

#[test]
fn array_flag_for_five_tasks_and_default_cap() {
    assert_eq!(sbatch_array_flag(5, 16), "--array=0-4%16");
}

#[test]
fn array_flag_various_counts() {
    assert_eq!(sbatch_array_flag(1, 16), "--array=0-0%16");
    assert_eq!(sbatch_array_flag(100, 4), "--array=0-99%4");
    assert_eq!(sbatch_array_flag(11, 1), "--array=0-10%1");
}

#[test]
fn decimal_rendering_is_exact() {
    assert_eq!(u64_to_string(0), "0");
    assert_eq!(u64_to_string(7), "7");
    assert_eq!(u64_to_string(16), "16");
    assert_eq!(u64_to_string(105), "105");
    assert_eq!(u64_to_string(18446744073709551615), "18446744073709551615");
}

#[test]
fn whitespace_splitting_is_naive_and_exact() {
    assert_eq!(
        split_whitespace_args("  -p gpu  --time 1:00 "),
        vec!["-p", "gpu", "--time", "1:00"]
    );
    assert_eq!(split_whitespace_args(""), Vec::<String>::new());
    assert_eq!(split_whitespace_args("   "), Vec::<String>::new());
    assert_eq!(split_whitespace_args("one"), vec!["one"]);
}

#[test]
fn trim_removes_edge_whitespace_only() {
    assert_eq!(trim("  B  "), "B");
    assert_eq!(trim("a b"), "a b");
    assert_eq!(trim("\t x \r\n"), "x");
    assert_eq!(trim(""), "");
}

#[test]
fn join_concatenates_with_separator() {
    let v = vec!["a".to_string(), "b".to_string(), "c".to_string()];
    assert_eq!(join_with(&v, " "), "a b c");
    assert_eq!(join_with(&v, "\n"), "a\nb\nc");
    assert_eq!(join_with(&Vec::new(), " "), "");
}

#[test]
fn script_extension_recognition() {
    assert!(has_sh_extension("run.sh"));
    assert!(has_sh_extension("dir/run.sh"));
    assert!(has_sh_extension("/abs/path/run.sh"));
    assert!(!has_sh_extension("recon-all"));
    assert!(!has_sh_extension(".sh"));
    assert!(!has_sh_extension("dir/.sh"));
    assert!(!has_sh_extension("run.txt"));
    assert!(!has_sh_extension("run.sh/"));
    assert!(!has_sh_extension("run.SH"));
}

#[test]
fn script_command_is_mounted_and_used_as_entrypoint() {
    let canonical = "/abs/path/run.sh".to_string();
    let (entry, volume) = resolve_command("run.sh".to_string(), Some(canonical.clone()));
    assert_eq!(entry, canonical);
    assert_eq!(volume, "-v /abs/path/run.sh:/abs/path/run.sh");
    let script = render_single_script(&volume, "", &entry, "", "img", "");
    assert!(script.contains("-v /abs/path/run.sh:/abs/path/run.sh"));
    assert!(script.contains("--entrypoint /abs/path/run.sh"));
}

#[test]
fn plain_command_is_passed_through_with_no_mount() {
    let (entry, volume) = resolve_command("recon-all".to_string(), None);
    assert_eq!(entry, "recon-all");
    assert_eq!(volume, "");
    let script = render_single_script(&volume, "", &entry, "", "img", "");
    assert!(script.contains("--entrypoint recon-all"));
    assert!(!script.contains("-v recon-all"));
}

#[test]
fn single_job_script_is_byte_exact() {
    let image = parse_image("docker.io/library/ubuntu:22.04");
    let args = vec!["subj1".to_string(), "subj2".to_string()];
    let (script, argv) = plan_single(
        image,
        None,
        "recon-all".to_string(),
        None,
        &Some("-p gpu".to_string()),
        &Some("--cpus 2".to_string()),
        &args,
    );
    let expected = "#!/bin/bash\nset -u\nexport TMPDIR=/ssd/home/$USER/TEMP\nsrun --ntasks=1 podman run --rm --security-opt=label=disable --device=nvidia.com/gpu=all -v \"$HOME\":\"$HOME\" -e HPC_HOME=\"$HOME\" -v /mnt/home/shared/:/mnt/home/shared/   --authfile /mnt/apps/etc/auth.json --entrypoint recon-all --cpus 2 docker.io/library/ubuntu:22.04 subj1 subj2\n";
    assert_eq!(script, expected);
    assert_eq!(argv, vec!["--gres=gpu:a100:1", "-p", "gpu"]);
}

#[test]
fn array_script_is_byte_exact() {
    let tasks = quote_task_lines("A\n  B  \n\nC\n");
    let (script, argv) = plan_array(
        Image::Freesurfer,
        None,
        "run.sh".to_string(),
        Some("/data/run.sh".to_string()),
        &tasks,
        None,
        &None,
        &None,
    );
    let expected = "#!/bin/bash\nset -u\nexport TMPDIR=/ssd/home/$USER/TEMP\nexport REGISTRY_AUTH_FILE=/mnt/apps/etc/auth.json\nINPUT=(\n\"A\"\n\"B\"\n\"C\"\n)\nsrun --ntasks=1 podman run --rm -v /data/run.sh:/data/run.sh -v /mnt/apps/etc/fs_license.txt:/usr/local/freesurfer/.license:ro -v /opt/matlab/runtime/R2019b/v97/:/usr/local/freesurfer/MCRv97 -e FS_LICENSE=/usr/local/freesurfer/.license --entrypoint /data/run.sh  docker.io/freesurfer/freesurfer:7.3.2 \"${INPUT[$SLURM_ARRAY_TASK_ID]}\"\n";
    assert_eq!(script, expected);
    assert_eq!(argv, vec!["--array=0-2%16"]);
}

#[test]
fn array_argv_appends_extra_sbatch_args() {
    let argv = sbatch_argv_array(5, Some(16), &Some("-p batch --mem 4G".to_string()));
    assert_eq!(argv, vec!["--array=0-4%16", "-p", "batch", "--mem", "4G"]);
    let argv = sbatch_argv_single(&None);
    assert_eq!(argv, vec!["--gres=gpu:a100:1"]);
}

#[test]
fn array_cap_defaults_to_sixteen() {
    let argv = sbatch_argv_array(5, None, &None);
    assert_eq!(argv, vec!["--array=0-4%16"]);
    let argv = sbatch_argv_array(5, Some(3), &None);
    assert_eq!(argv, vec!["--array=0-4%3"]);
}

#[test]
fn unicode_whitespace_is_trimmed_and_split() {
    assert_eq!(trim("\u{a0}x\u{2003}"), "x");
    assert_eq!(trim("\u{85}\u{3000}"), "");
    assert_eq!(split_whitespace_args("a\u{a0}b\u{2028}c"), vec!["a", "b", "c"]);
    assert_eq!(quote_task_lines("\u{a0}\n y z\u{205f}\n"), vec!["\"y z\""]);
}

#[test]
fn rendering_is_idempotent() {
    let make = || {
        plan_single(
            parse_image("FreeSurfer"),
            Some("7.4.0".to_string()),
            "run.sh".to_string(),
            Some("/data/run.sh".to_string()),
            &Some("-p gpu".to_string()),
            &None,
            &vec!["x".to_string()],
        )
    };
    let (s1, a1) = make();
    let (s2, a2) = make();
    assert_eq!(s1, s2);
    assert_eq!(a1, a2);
}

#[test]
fn error_messages_are_exact() {
    assert_eq!(
        SubmitError::SubprocessSpawnError.message(),
        "Unable to invoke sbatch"
    );
    assert_eq!(
        SubmitError::FileReadError("args.txt".to_string()).message(),
        "Unable to read command argument file, \"args.txt\""
    );
    assert_eq!(
        SubmitError::PathResolutionError("run.sh".to_string()).message(),
        "It looks like \"run.sh\" is a shell script, but a canonical path cannot be determined for mounting in each container"
    );
    assert_eq!(
        SubmitError::SubprocessIOError.message(),
        "Unable to take stdin of sbatch"
    );
    assert_eq!(
        SubmitError::SubprocessWaitError.message(),
        "Unable to wait for sbatch"
    );
    assert_eq!(SubmitError::NonZeroExit.message(), "Something went wrong...");
}
