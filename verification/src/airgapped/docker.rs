//! The Docker images that an offline installation loads, the decisions taken
//! while probing and loading them, and the messages shown on the way.

use vstd::prelude::*;
use crate::text::{decimal, decimal_string, trim, trimmed};

verus! {

broadcast use vstd::string::group_string_axioms;

/// Number of images that an offline installation needs.
pub const REQUIRED_IMAGE_COUNT: usize = 4;

/// The reference of required image `i`, in loading order.
pub open spec fn image_name(i: int) -> Seq<char> {
    if i == 0 {
        "postgres:15-alpine"@
    } else if i == 1 {
        "ghcr.io/nexusquantum/hypervisor-collector:latest"@
    } else if i == 2 {
        "bitnami/kubectl:latest"@
    } else {
        "ghcr.io/nexusquantum/fluentd-hypervisor-collector:latest"@
    }
}

/// The compressed archive, in the payload directory, that holds image `i`.
pub open spec fn image_archive(i: int) -> Seq<char> {
    if i == 0 {
        "postgres.tar.gz"@
    } else if i == 1 {
        "hypervisor-collector.tar.gz"@
    } else if i == 2 {
        "kubectl.tar.gz"@
    } else {
        "fluentd-hypervisor-collector.tar.gz"@
    }
}

/// Required image `i`: its reference and the archive that holds it.
pub fn required_image(i: usize) -> (r: (&'static str, &'static str))
    requires
        i < REQUIRED_IMAGE_COUNT,
    ensures
        r.0@ == image_name(i as int),
        r.1@ == image_archive(i as int),
{
    match i {
        0 => ("postgres:15-alpine", "postgres.tar.gz"),
        1 => ("ghcr.io/nexusquantum/hypervisor-collector:latest", "hypervisor-collector.tar.gz"),
        2 => ("bitnami/kubectl:latest", "kubectl.tar.gz"),
        _ => ("ghcr.io/nexusquantum/fluentd-hypervisor-collector:latest", "fluentd-hypervisor-collector.tar.gz"),
    }
}

/// Why an operation on Docker or on the image payload failed.
pub enum DockerError {
    /// The `docker` program could not be started.
    NotInstalled,
    /// `docker info` did not succeed.
    DaemonNotRunning,
    /// An image archive could not be opened.
    ImageFileUnreadable { path: String, reason: String },
    /// `docker load` could not be started.
    LoadNotStarted { reason: String },
    /// The input of `docker load` could not be taken.
    LoadInputUnavailable,
    /// Streaming the decompressed archive into `docker load` failed.
    StreamFailed { reason: String, path: String },
    /// Waiting for `docker load` failed.
    LoadWaitFailed { reason: String },
    /// `docker load` exited without success; `stderr` is what it wrote.
    LoadRejected { image: String, stderr: String, path: String },
    /// An image archive is absent from the payload.
    ImageFileMissing { file: String },
    /// An image is still absent after loading.
    ImageMissingAfterLoad { image: String },
}

impl DockerError {
    /// The message shown for the error, with its troubleshooting hints.
    pub open spec fn text(&self) -> Seq<char> {
        match self {
            DockerError::NotInstalled => "Docker is not installed or not in PATH\n\nTroubleshooting:\n- Install Docker: https://docs.docker.com/get-docker/\n- Ensure 'docker' command is in your PATH\n- Try running: which docker"@,
            DockerError::DaemonNotRunning => "Docker daemon is not running\n\nTroubleshooting:\n- Start Docker daemon: sudo systemctl start docker\n- Enable Docker on boot: sudo systemctl enable docker\n- Check Docker status: sudo systemctl status docker\n- Ensure your user is in docker group: sudo usermod -aG docker $USER"@,
            DockerError::ImageFileUnreadable { path, reason } => "Failed to open image file '"@
                + path@ + "': "@ + reason@ + "\n\nTroubleshooting:\n- Verify file exists: ls -lh "@
                + path@ + "\n- Check file permissions: chmod 644 "@ + path@
                + "\n- Ensure sufficient disk space: df -h"@,
            DockerError::LoadNotStarted { reason } => "Failed to spawn 'docker load' command: "@
                + reason@
                + "\n\nTroubleshooting:\n- Ensure Docker is installed: docker --version\n- Check Docker daemon is running: sudo systemctl status docker\n- Verify Docker permissions: docker ps"@,
            DockerError::LoadInputUnavailable => "Failed to open stdin for docker load"@,
            DockerError::StreamFailed { reason, path } => "Failed to stream image data to Docker: "@
                + reason@
                + "\n\nTroubleshooting:\n- Check disk space: df -h\n- Verify image file is not corrupted: gzip -t "@
                + path@ + "\n- Check Docker daemon logs: sudo journalctl -u docker -n 50"@,
            DockerError::LoadWaitFailed { reason } => "Failed to wait for docker load: "@ + reason@,
            DockerError::LoadRejected { image, stderr, path } => "Failed to load image '"@ + image@
                + "': "@ + stderr@
                + "\n\nTroubleshooting:\n- Ensure Docker daemon is running: sudo systemctl start docker\n- Check disk space: df -h /var/lib/docker\n- Verify image file integrity: sha256sum "@
                + path@ + "\n- Check Docker logs: sudo journalctl -u docker -n 50\n- Try manual load: gunzip -c "@
                + path@ + " | docker load"@,
            DockerError::ImageFileMissing { file } => "Image file not found: "@ + file@,
            DockerError::ImageMissingAfterLoad { image } => "Image not found after loading: "@
                + image@,
        }
    }

    /// The message shown for the error.
    pub fn message(&self) -> (r: String)
        ensures
            r@ == self.text(),
    {
        let mut r = String::new();
        match self {
            DockerError::NotInstalled => {
                r.append("Docker is not installed or not in PATH\n\nTroubleshooting:\n- Install Docker: https://docs.docker.com/get-docker/\n- Ensure 'docker' command is in your PATH\n- Try running: which docker");
            },
            DockerError::DaemonNotRunning => {
                r.append("Docker daemon is not running\n\nTroubleshooting:\n- Start Docker daemon: sudo systemctl start docker\n- Enable Docker on boot: sudo systemctl enable docker\n- Check Docker status: sudo systemctl status docker\n- Ensure your user is in docker group: sudo usermod -aG docker $USER");
            },
            DockerError::ImageFileUnreadable { path, reason } => {
                r.append("Failed to open image file '");
                r.append(path.as_str());
                r.append("': ");
                r.append(reason.as_str());
                r.append("\n\nTroubleshooting:\n- Verify file exists: ls -lh ");
                r.append(path.as_str());
                r.append("\n- Check file permissions: chmod 644 ");
                r.append(path.as_str());
                r.append("\n- Ensure sufficient disk space: df -h");
            },
            DockerError::LoadNotStarted { reason } => {
                r.append("Failed to spawn 'docker load' command: ");
                r.append(reason.as_str());
                r.append("\n\nTroubleshooting:\n- Ensure Docker is installed: docker --version\n- Check Docker daemon is running: sudo systemctl status docker\n- Verify Docker permissions: docker ps");
            },
            DockerError::LoadInputUnavailable => {
                r.append("Failed to open stdin for docker load");
            },
            DockerError::StreamFailed { reason, path } => {
                r.append("Failed to stream image data to Docker: ");
                r.append(reason.as_str());
                r.append("\n\nTroubleshooting:\n- Check disk space: df -h\n- Verify image file is not corrupted: gzip -t ");
                r.append(path.as_str());
                r.append("\n- Check Docker daemon logs: sudo journalctl -u docker -n 50");
            },
            DockerError::LoadWaitFailed { reason } => {
                r.append("Failed to wait for docker load: ");
                r.append(reason.as_str());
            },
            DockerError::LoadRejected { image, stderr, path } => {
                r.append("Failed to load image '");
                r.append(image.as_str());
                r.append("': ");
                r.append(stderr.as_str());
                r.append("\n\nTroubleshooting:\n- Ensure Docker daemon is running: sudo systemctl start docker\n- Check disk space: df -h /var/lib/docker\n- Verify image file integrity: sha256sum ");
                r.append(path.as_str());
                r.append("\n- Check Docker logs: sudo journalctl -u docker -n 50\n- Try manual load: gunzip -c ");
                r.append(path.as_str());
                r.append(" | docker load");
            },
            DockerError::ImageFileMissing { file } => {
                r.append("Image file not found: ");
                r.append(file.as_str());
            },
            DockerError::ImageMissingAfterLoad { image } => {
                r.append("Image not found after loading: ");
                r.append(image.as_str());
            },
        }
        assert(r@ =~= self.text());
        r
    }
}


/// `docker --version` was run to see whether Docker is installed: Docker
/// counts as available when the program could be started, whatever it
/// printed or returned.
pub fn availability_verdict(started: bool) -> (r: Result<(), DockerError>)
    ensures
        r is Ok <==> started,
        r matches Err(e) ==> e is NotInstalled,
{
    if started {
        Ok(())
    } else {
        Err(DockerError::NotInstalled)
    }
}

/// `docker info` was run to see whether the daemon answers: it runs when
/// the command exited with success.
pub fn daemon_verdict(info_succeeded: bool) -> (r: Result<(), DockerError>)
    ensures
        r is Ok <==> info_succeeded,
        r matches Err(e) ==> e is DaemonNotRunning,
{
    if info_succeeded {
        Ok(())
    } else {
        Err(DockerError::DaemonNotRunning)
    }
}

/// Where a check of the required images stands: the image to query next,
/// or how the check ended.
#[derive(Debug, Clone, Copy, PartialEq, Eq, Structural)]
pub enum ImageCheck {
    /// Ask Docker whether required image `i` is present.
    Query(usize),
    /// Every required image is present.
    AllPresent,
    /// Required image `i` is absent (the first one found so).
    Missing(usize),
    /// Docker is not installed or its daemon is not running.
    DockerUnavailable,
}

/// How a check begins: images are queried in order once Docker is ready.
pub open spec fn check_start(docker_ready: bool) -> ImageCheck {
    if docker_ready {
        ImageCheck::Query(0)
    } else {
        ImageCheck::DockerUnavailable
    }
}

/// The step after learning whether image `current` is present: stop at the
/// first absent image, else query the next one, else all are present.
pub open spec fn check_step(current: int, present: bool) -> ImageCheck {
    if !present {
        ImageCheck::Missing(current as usize)
    } else if current + 1 < REQUIRED_IMAGE_COUNT {
        ImageCheck::Query((current + 1) as usize)
    } else {
        ImageCheck::AllPresent
    }
}

/// Begins a check of the required images.
pub fn start_image_check(docker_ready: bool) -> (r: ImageCheck)
    ensures
        r == check_start(docker_ready),
{
    if docker_ready {
        ImageCheck::Query(0)
    } else {
        ImageCheck::DockerUnavailable
    }
}

/// Continues a check after Docker answered whether image `current` is present.
pub fn continue_image_check(current: usize, present: bool) -> (r: ImageCheck)
    requires
        current < REQUIRED_IMAGE_COUNT,
    ensures
        r == check_step(current as int, present),
{
    if !present {
        ImageCheck::Missing(current)
    } else if current + 1 < REQUIRED_IMAGE_COUNT {
        ImageCheck::Query(current + 1)
    } else {
        ImageCheck::AllPresent
    }
}

/// The state reached from `c` after answering at most `steps` queries with
/// `present[i]` for image `i`.
pub open spec fn run_check(c: ImageCheck, present: Seq<bool>, steps: nat) -> ImageCheck
    decreases steps,
{
    if steps == 0 {
        c
    } else {
        match c {
            ImageCheck::Query(i) => run_check(check_step(i as int, present[i as int]), present, (steps - 1) as nat),
            _ => c,
        }
    }
}

proof fn lemma_run_check_from(present: Seq<bool>, i: int)
    requires
        present.len() == REQUIRED_IMAGE_COUNT,
        0 <= i < REQUIRED_IMAGE_COUNT,
        forall|j: int| 0 <= j < i ==> present[j],
    ensures
        (forall|j: int| i <= j < REQUIRED_IMAGE_COUNT ==> present[j]) ==> run_check(
            ImageCheck::Query(i as usize),
            present,
            (REQUIRED_IMAGE_COUNT - i) as nat,
        ) == ImageCheck::AllPresent,
        forall|k: int|
            i <= k < REQUIRED_IMAGE_COUNT && !present[k] && (forall|j: int| i <= j < k ==> present[j])
                ==> run_check(ImageCheck::Query(i as usize), present, (REQUIRED_IMAGE_COUNT - i) as nat)
                == ImageCheck::Missing(k as usize),
    decreases REQUIRED_IMAGE_COUNT - i,
{
    let steps = (REQUIRED_IMAGE_COUNT - i) as nat;
    assert(run_check(ImageCheck::Query(i as usize), present, steps) == run_check(
        check_step(i, present[i]),
        present,
        (steps - 1) as nat,
    ));
    if present[i] && i + 1 < REQUIRED_IMAGE_COUNT {
        lemma_run_check_from(present, i + 1);
    }
}

/// Law of the image check: answering the queries with which required images
/// are present ends, within four answers, in `AllPresent` exactly when all
/// are present, and otherwise in `Missing` of the first absent image.
pub proof fn lemma_image_check_outcome(present: Seq<bool>)
    requires
        present.len() == REQUIRED_IMAGE_COUNT,
    ensures
        (forall|j: int| 0 <= j < REQUIRED_IMAGE_COUNT ==> present[j]) ==> run_check(
            check_start(true),
            present,
            REQUIRED_IMAGE_COUNT as nat,
        ) == ImageCheck::AllPresent,
        forall|k: int|
            0 <= k < REQUIRED_IMAGE_COUNT && !present[k] && (forall|j: int| 0 <= j < k ==> present[j])
                ==> run_check(check_start(true), present, REQUIRED_IMAGE_COUNT as nat)
                == ImageCheck::Missing(k as usize),
        run_check(check_start(false), present, REQUIRED_IMAGE_COUNT as nat)
            == ImageCheck::DockerUnavailable,
{
    lemma_run_check_from(present, 0);
    assert(run_check(ImageCheck::DockerUnavailable, present, REQUIRED_IMAGE_COUNT as nat)
        == ImageCheck::DockerUnavailable);
}

/// Whether all required images exist, once a check has ended: only when it
/// ended with every image present.
pub fn all_images_exist_verdict(c: ImageCheck) -> (r: bool)
    requires
        !(c is Query),
    ensures
        r == (c is AllPresent),
{
    match c {
        ImageCheck::AllPresent => true,
        _ => false,
    }
}

/// The result of verifying the loaded images, once a check begun with Docker
/// ready has ended: an error names the first image still absent.
pub fn images_loaded_verdict(c: ImageCheck) -> (r: Result<(), DockerError>)
    requires
        c is AllPresent || (c is Missing && c->Missing_0 < REQUIRED_IMAGE_COUNT),
    ensures
        r is Ok <==> c is AllPresent,
        r matches Err(e) ==> (e matches DockerError::ImageMissingAfterLoad { image } && image@
            == image_name(c->Missing_0 as int)),
{
    match c {
        ImageCheck::Missing(i) => {
            let (name, _) = required_image(i);
            Err(DockerError::ImageMissingAfterLoad { image: name.to_string() })
        },
        _ => Ok(()),
    }
}

/// Whether loading may go on with image `i`: its archive must be in the payload.
pub fn archive_verdict(i: usize, archive_exists: bool) -> (r: Result<(), DockerError>)
    requires
        i < REQUIRED_IMAGE_COUNT,
    ensures
        r is Ok <==> archive_exists,
        r matches Err(e) ==> (e matches DockerError::ImageFileMissing { file } && file@
            == image_archive(i as int)),
{
    if archive_exists {
        Ok(())
    } else {
        let (_, archive) = required_image(i);
        Err(DockerError::ImageFileMissing { file: archive.to_string() })
    }
}

/// The result of `docker load` for `image` from the archive at `path`: a
/// failure carries what the command wrote to its error output, trimmed.
pub fn load_verdict(succeeded: bool, stderr: &str, image: &str, path: &str) -> (r: Result<
    (),
    DockerError,
>)
    ensures
        r is Ok <==> succeeded,
        r matches Err(e) ==> (e matches DockerError::LoadRejected { image: i, stderr: s, path: p }
            && i@ == image@ && s@ == trimmed(stderr@) && p@ == path@),
{
    if succeeded {
        Ok(())
    } else {
        Err(
            DockerError::LoadRejected {
                image: image.to_string(),
                stderr: trim(stderr).to_string(),
                path: path.to_string(),
            },
        )
    }
}

/// Where loading the required images stands: the image to load next, or
/// how loading ended.
#[derive(Debug, Clone, Copy, PartialEq, Eq, Structural)]
pub enum LoadStep {
    /// Check that the archive of image `i` is in the payload, then load it.
    Next(usize),
    /// Every image was loaded.
    Finished,
    /// Image `i` could not be loaded: its archive is absent or loading it
    /// failed. No later image is attempted.
    Failed(usize),
}

/// How loading begins: with the first required image.
pub open spec fn load_start() -> LoadStep {
    LoadStep::Next(0)
}

/// The step after image `idx`: stop at the first image whose archive is
/// absent or whose loading failed, else go on with the next image in list
/// order, else loading is finished.
pub open spec fn load_step(idx: int, archive_present: bool, loaded: bool) -> LoadStep {
    if !archive_present || !loaded {
        LoadStep::Failed(idx as usize)
    } else if idx + 1 < REQUIRED_IMAGE_COUNT {
        LoadStep::Next((idx + 1) as usize)
    } else {
        LoadStep::Finished
    }
}

/// Begins loading the required images.
pub fn start_loading() -> (r: LoadStep)
    ensures
        r == load_start(),
{
    LoadStep::Next(0)
}

/// Continues loading once image `idx` was handled: whether its archive was
/// present and whether loading it succeeded (not attempted without archive).
pub fn continue_loading(idx: usize, archive_present: bool, loaded: bool) -> (r: LoadStep)
    requires
        idx < REQUIRED_IMAGE_COUNT,
    ensures
        r == load_step(idx as int, archive_present, loaded),
{
    if !archive_present || !loaded {
        LoadStep::Failed(idx)
    } else if idx + 1 < REQUIRED_IMAGE_COUNT {
        LoadStep::Next(idx + 1)
    } else {
        LoadStep::Finished
    }
}

/// The state reached from `s` after handling at most `steps` images, image
/// `i` having its archive present when `present[i]` and loading with success
/// when `loads[i]`.
pub open spec fn run_loading(s: LoadStep, present: Seq<bool>, loads: Seq<bool>, steps: nat) -> LoadStep
    decreases steps,
{
    if steps == 0 {
        s
    } else {
        match s {
            LoadStep::Next(i) => run_loading(
                load_step(i as int, present[i as int], loads[i as int]),
                present,
                loads,
                (steps - 1) as nat,
            ),
            _ => s,
        }
    }
}

/// Image `i` can be loaded: its archive is present and loading it succeeds.
pub open spec fn loadable(present: Seq<bool>, loads: Seq<bool>, i: int) -> bool {
    present[i] && loads[i]
}

proof fn lemma_run_loading_from(present: Seq<bool>, loads: Seq<bool>, i: int)
    requires
        present.len() == REQUIRED_IMAGE_COUNT,
        loads.len() == REQUIRED_IMAGE_COUNT,
        0 <= i < REQUIRED_IMAGE_COUNT,
    ensures
        (forall|j: int| i <= j < REQUIRED_IMAGE_COUNT ==> #[trigger] loadable(present, loads, j))
            ==> run_loading(LoadStep::Next(i as usize), present, loads, (REQUIRED_IMAGE_COUNT - i) as nat)
            == LoadStep::Finished,
        forall|k: int|
            i <= k < REQUIRED_IMAGE_COUNT && !loadable(present, loads, k) && (forall|j: int|
                i <= j < k ==> #[trigger] loadable(present, loads, j)) ==> run_loading(
                LoadStep::Next(i as usize),
                present,
                loads,
                (REQUIRED_IMAGE_COUNT - i) as nat,
            ) == LoadStep::Failed(k as usize),
    decreases REQUIRED_IMAGE_COUNT - i,
{
    let steps = (REQUIRED_IMAGE_COUNT - i) as nat;
    assert(run_loading(LoadStep::Next(i as usize), present, loads, steps) == run_loading(
        load_step(i, present[i], loads[i]),
        present,
        loads,
        (steps - 1) as nat,
    ));
    if loadable(present, loads, i) && i + 1 < REQUIRED_IMAGE_COUNT {
        lemma_run_loading_from(present, loads, i + 1);
    }
}

/// Law of loading: the images are taken one by one in list order (the step
/// after image `i` is image `i + 1`); loading finishes, within four steps,
/// exactly when every archive is present and every load succeeds, and
/// otherwise stops at the first image that could not be loaded.
pub proof fn lemma_loading_outcome(present: Seq<bool>, loads: Seq<bool>)
    requires
        present.len() == REQUIRED_IMAGE_COUNT,
        loads.len() == REQUIRED_IMAGE_COUNT,
    ensures
        forall|i: int|
            0 <= i < REQUIRED_IMAGE_COUNT - 1 && #[trigger] loadable(present, loads, i) ==> load_step(
                i,
                present[i],
                loads[i],
            ) == LoadStep::Next((i + 1) as usize),
        (forall|j: int| 0 <= j < REQUIRED_IMAGE_COUNT ==> #[trigger] loadable(present, loads, j))
            ==> run_loading(load_start(), present, loads, REQUIRED_IMAGE_COUNT as nat)
            == LoadStep::Finished,
        forall|k: int|
            0 <= k < REQUIRED_IMAGE_COUNT && !loadable(present, loads, k) && (forall|j: int|
                0 <= j < k ==> #[trigger] loadable(present, loads, j)) ==> run_loading(
                load_start(),
                present,
                loads,
                REQUIRED_IMAGE_COUNT as nat,
            ) == LoadStep::Failed(k as usize),
{
    lemma_run_loading_from(present, loads, 0);
}

/// The line announcing how many images are loaded.
pub open spec fn loading_summary_text() -> Seq<char> {
    "  Loading "@ + decimal(REQUIRED_IMAGE_COUNT as nat) + " Docker images..."@
}

/// The progress line before loading image `idx`: its position, counted from
/// one, the total, and its reference.
pub open spec fn progress_text(idx: int) -> Seq<char> {
    "  ["@ + decimal((idx + 1) as nat) + "/"@ + decimal(REQUIRED_IMAGE_COUNT as nat) + "] "@
        + image_name(idx)
}

/// The line shown while one image loads.
pub open spec fn loading_text(image: Seq<char>) -> Seq<char> {
    "    Loading "@ + image + "..."@
}

/// `  Loading 4 Docker images...`
pub fn loading_summary() -> (r: String)
    ensures
        r@ == loading_summary_text(),
{
    let mut r = "  Loading ".to_string();
    r.append(decimal_string(REQUIRED_IMAGE_COUNT).as_str());
    r.append(" Docker images...");
    assert(r@ =~= loading_summary_text());
    r
}

/// `  [k/4] image` for the `k`-th image.
pub fn progress_line(idx: usize) -> (r: String)
    requires
        idx < REQUIRED_IMAGE_COUNT,
    ensures
        r@ == progress_text(idx as int),
{
    let (name, _) = required_image(idx);
    let mut r = "  [".to_string();
    r.append(decimal_string(idx + 1).as_str());
    r.append("/");
    r.append(decimal_string(REQUIRED_IMAGE_COUNT).as_str());
    r.append("] ");
    r.append(name);
    assert(r@ =~= progress_text(idx as int));
    r
}

/// `    Loading image...`
pub fn loading_line(image: &str) -> (r: String)
    ensures
        r@ == loading_text(image@),
{
    let mut r = "    Loading ".to_string();
    r.append(image);
    r.append("...");
    assert(r@ =~= loading_text(image@));
    r
}

} // verus!
