//! Rendering of the submission script and of the `sbatch` argument vector.
//! The script text is a pure function of the resolved inputs: two invocations
//! with the same arguments and filesystem state produce byte-identical
//! scripts.

use vstd::prelude::*;

use crate::command::{command_volume_spec, entrypoint_spec, resolve_command};
use crate::image::{
    image_ref_spec, podman_args_for_image, podman_args_spec, qualified_image_name, Image,
};
use crate::numbers::{dec_spec, u64_to_string};
use crate::text::{join_spec, join_with, split_whitespace_args, split_whitespace_spec};

verus! {

/// `o` or the empty string.
pub open spec fn opt_or_empty(o: Option<Seq<char>>) -> Seq<char> {
    match o {
        Some(s) => s,
        None => ""@,
    }
}

/// The single-job GPU submission script: fixed preamble and one `srun`
/// invocation of `podman run` with GPU passthrough, composed from the
/// resolved pieces in fixed order.
pub open spec fn single_script_spec(
    command_volume_arg: Seq<char>,
    extra_podman_args: Seq<char>,
    entrypoint: Seq<char>,
    podman_args: Seq<char>,
    image: Seq<char>,
    command_args: Seq<char>,
) -> Seq<char> {
    "#!/bin/bash\nset -u\nexport TMPDIR=/ssd/home/$USER/TEMP\nsrun --ntasks=1 podman run --rm --security-opt=label=disable --device=nvidia.com/gpu=all -v \"$HOME\":\"$HOME\" -e HPC_HOME=\"$HOME\" -v /mnt/home/shared/:/mnt/home/shared/ "@
        + command_volume_arg + " "@ + extra_podman_args
        + " --authfile /mnt/apps/etc/auth.json --entrypoint "@ + entrypoint + " "@ + podman_args
        + " "@ + image + " "@ + command_args + "\n"@
}

/// The array submission script: fixed preamble, an in-script shell array of
/// per-task arguments, and one `srun` invocation of `podman run` indexed by
/// the task-index environment variable.
pub open spec fn array_script_spec(
    command_volume_arg: Seq<char>,
    extra_podman_args: Seq<char>,
    entrypoint: Seq<char>,
    podman_args: Seq<char>,
    image: Seq<char>,
    input_array: Seq<char>,
) -> Seq<char> {
    "#!/bin/bash\nset -u\nexport TMPDIR=/ssd/home/$USER/TEMP\nexport REGISTRY_AUTH_FILE=/mnt/apps/etc/auth.json\nINPUT=(\n"@
        + input_array + "\n)\nsrun --ntasks=1 podman run --rm "@ + command_volume_arg + " "@
        + extra_podman_args + " --entrypoint "@ + entrypoint + " "@ + podman_args + " "@ + image
        + " \"${INPUT[$SLURM_ARRAY_TASK_ID]}\"\n"@
}

/// Renders the single-job GPU script from the resolved pieces.
pub fn render_single_script(
    command_volume_arg: &str,
    extra_podman_args: &str,
    entrypoint: &str,
    podman_args: &str,
    image: &str,
    command_args: &str,
) -> (r: String)
    ensures
        r@ == single_script_spec(
            command_volume_arg@,
            extra_podman_args@,
            entrypoint@,
            podman_args@,
            image@,
            command_args@,
        ),
{
    let mut s = String::from_str(
        "#!/bin/bash\nset -u\nexport TMPDIR=/ssd/home/$USER/TEMP\nsrun --ntasks=1 podman run --rm --security-opt=label=disable --device=nvidia.com/gpu=all -v \"$HOME\":\"$HOME\" -e HPC_HOME=\"$HOME\" -v /mnt/home/shared/:/mnt/home/shared/ ",
    );
    s.append(command_volume_arg);
    s.append(" ");
    s.append(extra_podman_args);
    s.append(" --authfile /mnt/apps/etc/auth.json --entrypoint ");
    s.append(entrypoint);
    s.append(" ");
    s.append(podman_args);
    s.append(" ");
    s.append(image);
    s.append(" ");
    s.append(command_args);
    s.append("\n");
    proof {
        assert(s@ =~= single_script_spec(
            command_volume_arg@,
            extra_podman_args@,
            entrypoint@,
            podman_args@,
            image@,
            command_args@,
        ));
    }
    s
}

/// Renders the array script from the resolved pieces and the newline-joined,
/// quoted per-task argument list.
pub fn render_array_script(
    command_volume_arg: &str,
    extra_podman_args: &str,
    entrypoint: &str,
    podman_args: &str,
    image: &str,
    input_array: &str,
) -> (r: String)
    ensures
        r@ == array_script_spec(
            command_volume_arg@,
            extra_podman_args@,
            entrypoint@,
            podman_args@,
            image@,
            input_array@,
        ),
{
    let mut s = String::from_str(
        "#!/bin/bash\nset -u\nexport TMPDIR=/ssd/home/$USER/TEMP\nexport REGISTRY_AUTH_FILE=/mnt/apps/etc/auth.json\nINPUT=(\n",
    );
    s.append(input_array);
    s.append("\n)\nsrun --ntasks=1 podman run --rm ");
    s.append(command_volume_arg);
    s.append(" ");
    s.append(extra_podman_args);
    s.append(" --entrypoint ");
    s.append(entrypoint);
    s.append(" ");
    s.append(podman_args);
    s.append(" ");
    s.append(image);
    s.append(" \"${INPUT[$SLURM_ARRAY_TASK_ID]}\"\n");
    proof {
        assert(s@ =~= array_script_spec(
            command_volume_arg@,
            extra_podman_args@,
            entrypoint@,
            podman_args@,
            image@,
            input_array@,
        ));
    }
    s
}

/// The `--array=0-N%M` flag for `num_tasks` tasks capped at `max_tasks`
/// concurrent tasks.
pub open spec fn array_flag_spec(num_tasks: int, max_tasks: int) -> Seq<char> {
    "--array=0-"@ + dec_spec(num_tasks - 1) + "%"@ + dec_spec(max_tasks)
}

/// Renders the `sbatch` array flag for `num_tasks` tasks.
pub fn sbatch_array_flag(num_tasks: usize, max_tasks: u64) -> (r: String)
    requires
        num_tasks >= 1,
    ensures
        r@ == array_flag_spec(num_tasks as int, max_tasks as int),
{
    let mut s = String::from_str("--array=0-");
    let top = u64_to_string((num_tasks - 1) as u64);
    s.append(top.as_str());
    s.append("%");
    let cap = u64_to_string(max_tasks);
    s.append(cap.as_str());
    proof {
        assert(s@ =~= array_flag_spec(num_tasks as int, max_tasks as int));
    }
    s
}

/// The extra `sbatch` arguments: the override split on whitespace, or none.
pub open spec fn extra_sbatch_args_spec(extra: Option<Seq<char>>) -> Seq<Seq<char>> {
    match extra {
        Some(e) => split_whitespace_spec(e),
        None => Seq::<Seq<char>>::empty(),
    }
}

/// The `sbatch` argument vector for a single GPU job: the GPU resource
/// request, then any whitespace-split extra arguments.
pub fn sbatch_argv_single(sbatch_args: &Option<String>) -> (r: Vec<String>)
    ensures
        r.deep_view() == seq!["--gres=gpu:a100:1"@] + extra_sbatch_args_spec(
            sbatch_args.deep_view(),
        ),
{
    let mut v: Vec<String> = Vec::new();
    v.push(String::from_str("--gres=gpu:a100:1"));
    proof {
        assert(v.deep_view() =~= seq!["--gres=gpu:a100:1"@]);
    }
    match sbatch_args {
        Some(e) => {
            let ghost v0 = v.deep_view();
            let mut parts = split_whitespace_args(e.as_str());
            let ghost parts_dv = parts.deep_view();
            v.append(&mut parts);
            proof {
                assert(v.deep_view() =~= v0 + parts_dv);
            }
        },
        None => {
            proof {
                assert(v.deep_view() + Seq::<Seq<char>>::empty() =~= v.deep_view());
            }
        },
    }
    v
}

/// The concurrency cap of a job array: the override, or the default of 16.
pub open spec fn effective_max_tasks(max_tasks: Option<u64>) -> int {
    match max_tasks {
        Some(m) => m as int,
        None => 16,
    }
}

/// The `sbatch` argument vector for a job array: the `--array=0-N%M` flag,
/// then any whitespace-split extra arguments. An absent concurrency cap
/// defaults to 16.
pub fn sbatch_argv_array(num_tasks: usize, max_tasks: Option<u64>, sbatch_args: &Option<String>) -> (r:
    Vec<String>)
    requires
        num_tasks >= 1,
    ensures
        r.deep_view() == seq![array_flag_spec(num_tasks as int, effective_max_tasks(max_tasks))]
            + extra_sbatch_args_spec(sbatch_args.deep_view()),
{
    let mut v: Vec<String> = Vec::new();
    let cap = match max_tasks {
        Some(m) => m,
        None => 16,
    };
    let flag = sbatch_array_flag(num_tasks, cap);
    v.push(flag);
    proof {
        assert(v.deep_view() =~= seq![array_flag_spec(
            num_tasks as int,
            effective_max_tasks(max_tasks),
        )]);
    }
    match sbatch_args {
        Some(e) => {
            let ghost v0 = v.deep_view();
            let mut parts = split_whitespace_args(e.as_str());
            let ghost parts_dv = parts.deep_view();
            v.append(&mut parts);
            proof {
                assert(v.deep_view() =~= v0 + parts_dv);
            }
        },
        None => {
            proof {
                assert(v.deep_view() + Seq::<Seq<char>>::empty() =~= v.deep_view());
            }
        },
    }
    v
}

/// The fully planned single-job GPU script as a function of the request
/// alone.
pub open spec fn planned_single_script(
    image: &Image,
    tag: &Option<String>,
    command: Seq<char>,
    canonical: Option<Seq<char>>,
    podman_args: Option<Seq<char>>,
    command_args: Seq<Seq<char>>,
) -> Seq<char> {
    single_script_spec(
        command_volume_spec(canonical),
        podman_args_spec(image),
        entrypoint_spec(command, canonical),
        opt_or_empty(podman_args),
        image_ref_spec(image, tag),
        join_spec(command_args, " "@),
    )
}

/// The fully planned array script as a function of the request alone.
pub open spec fn planned_array_script(
    image: &Image,
    tag: &Option<String>,
    command: Seq<char>,
    canonical: Option<Seq<char>>,
    podman_args: Option<Seq<char>>,
    tasks: Seq<Seq<char>>,
) -> Seq<char> {
    array_script_spec(
        command_volume_spec(canonical),
        podman_args_spec(image),
        entrypoint_spec(command, canonical),
        opt_or_empty(podman_args),
        image_ref_spec(image, tag),
        join_spec(tasks, "\n"@),
    )
}

/// Plans a single GPU job: the rendered script and the `sbatch` argument
/// vector. `canonical` is the canonicalized path of the command when it names
/// an existing shell script on the host.
pub fn plan_single(
    image: Image,
    tag: Option<String>,
    command: String,
    canonical: Option<String>,
    sbatch_args: &Option<String>,
    podman_args: &Option<String>,
    command_args: &Vec<String>,
) -> (r: (String, Vec<String>))
    ensures
        r.0@ == planned_single_script(
            &image,
            &tag,
            command@,
            canonical.deep_view(),
            podman_args.deep_view(),
            command_args.deep_view(),
        ),
        r.1.deep_view() == seq!["--gres=gpu:a100:1"@] + extra_sbatch_args_spec(
            sbatch_args.deep_view(),
        ),
{
    let extra = podman_args_for_image(&image);
    let (entrypoint, command_volume_arg) = resolve_command(command, canonical);
    let image_ref = qualified_image_name(image, tag);
    let podman = match podman_args {
        Some(p) => p.as_str(),
        None => "",
    };
    let joined_args = join_with(command_args, " ");
    let script = render_single_script(
        command_volume_arg.as_str(),
        extra,
        entrypoint.as_str(),
        podman,
        image_ref.as_str(),
        joined_args.as_str(),
    );
    let argv = sbatch_argv_single(sbatch_args);
    (script, argv)
}

/// Plans a job array: the rendered script and the `sbatch` argument vector.
/// `tasks` is the quoted surviving task list of the argument file, which must
/// hold at least one task. An absent concurrency cap defaults to 16.
pub fn plan_array(
    image: Image,
    tag: Option<String>,
    command: String,
    canonical: Option<String>,
    tasks: &Vec<String>,
    max_tasks: Option<u64>,
    sbatch_args: &Option<String>,
    podman_args: &Option<String>,
) -> (r: (String, Vec<String>))
    requires
        tasks@.len() >= 1,
    ensures
        r.0@ == planned_array_script(
            &image,
            &tag,
            command@,
            canonical.deep_view(),
            podman_args.deep_view(),
            tasks.deep_view(),
        ),
        r.1.deep_view() == seq![array_flag_spec(
            tasks@.len() as int,
            effective_max_tasks(max_tasks),
        )] + extra_sbatch_args_spec(sbatch_args.deep_view()),
{
    let extra = podman_args_for_image(&image);
    let (entrypoint, command_volume_arg) = resolve_command(command, canonical);
    let image_ref = qualified_image_name(image, tag);
    let podman = match podman_args {
        Some(p) => p.as_str(),
        None => "",
    };
    let num_tasks = tasks.len();
    let input_array = join_with(tasks, "\n");
    let script = render_array_script(
        command_volume_arg.as_str(),
        extra,
        entrypoint.as_str(),
        podman,
        image_ref.as_str(),
        input_array.as_str(),
    );
    let argv = sbatch_argv_array(num_tasks, max_tasks, sbatch_args);
    (script, argv)
}

/// Whether two image selectors resolve alike: the same known family, or the
/// same literal reference.
pub open spec fn image_like(a: &Image, b: &Image) -> bool {
    match (a, b) {
        (Image::Freesurfer, Image::Freesurfer) => true,
        (Image::QualifiedName(x), Image::QualifiedName(y)) => x@ == y@,
        _ => false,
    }
}

/// Rendering is idempotent: two requests whose parts are equal as values
/// produce identical single-job scripts. Nothing time-varying enters the
/// script text.
pub proof fn lemma_single_script_deterministic(
    image1: &Image,
    tag1: &Option<String>,
    image2: &Image,
    tag2: &Option<String>,
    command: Seq<char>,
    canonical: Option<Seq<char>>,
    podman_args: Option<Seq<char>>,
    command_args: Seq<Seq<char>>,
)
    requires
        image_like(image1, image2),
        tag1.deep_view() == tag2.deep_view(),
    ensures
        planned_single_script(image1, tag1, command, canonical, podman_args, command_args)
            == planned_single_script(image2, tag2, command, canonical, podman_args, command_args),
{
    assert(image_ref_spec(image1, tag1) == image_ref_spec(image2, tag2));
}

/// Rendering is idempotent for job arrays as well: two requests whose parts
/// are equal as values produce identical array scripts.
pub proof fn lemma_array_script_deterministic(
    image1: &Image,
    tag1: &Option<String>,
    image2: &Image,
    tag2: &Option<String>,
    command: Seq<char>,
    canonical: Option<Seq<char>>,
    podman_args: Option<Seq<char>>,
    tasks: Seq<Seq<char>>,
)
    requires
        image_like(image1, image2),
        tag1.deep_view() == tag2.deep_view(),
    ensures
        planned_array_script(image1, tag1, command, canonical, podman_args, tasks)
            == planned_array_script(image2, tag2, command, canonical, podman_args, tasks),
{
    assert(image_ref_spec(image1, tag1) == image_ref_spec(image2, tag2));
}

} // verus!
