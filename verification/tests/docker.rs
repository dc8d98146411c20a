use nqrust_hvcollector::airgapped::docker::{
    all_images_exist_verdict, archive_verdict, availability_verdict, continue_image_check, daemon_verdict,
    images_loaded_verdict, load_verdict, loading_line, loading_summary, progress_line, required_image,
    continue_loading, start_image_check, start_loading, DockerError, ImageCheck, LoadStep,
    REQUIRED_IMAGE_COUNT,
};

fn run(docker_ready: bool, present: &[bool]) -> ImageCheck {
    let mut c = start_image_check(docker_ready);
    while let ImageCheck::Query(i) = c {
        c = continue_image_check(i, present[i]);
    }
    c
}

#[test]
fn required_images_and_archives() {
    let expected = [
        ("postgres:15-alpine", "postgres.tar.gz"),
        ("ghcr.io/nexusquantum/hypervisor-collector:latest", "hypervisor-collector.tar.gz"),
        ("bitnami/kubectl:latest", "kubectl.tar.gz"),
        ("ghcr.io/nexusquantum/fluentd-hypervisor-collector:latest", "fluentd-hypervisor-collector.tar.gz"),
    ];
    assert_eq!(REQUIRED_IMAGE_COUNT, expected.len());
    for (i, e) in expected.iter().enumerate() {
        assert_eq!(required_image(i), *e);
    }
}

#[test]
fn fixed_messages() {
    assert_eq!(
        DockerError::NotInstalled.message(),
        "Docker is not installed or not in PATH\n\nTroubleshooting:\n- Install Docker: https://docs.docker.com/get-docker/\n- Ensure 'docker' command is in your PATH\n- Try running: which docker"
    );
    assert_eq!(
        DockerError::DaemonNotRunning.message(),
        "Docker daemon is not running\n\nTroubleshooting:\n- Start Docker daemon: sudo systemctl start docker\n- Enable Docker on boot: sudo systemctl enable docker\n- Check Docker status: sudo systemctl status docker\n- Ensure your user is in docker group: sudo usermod -aG docker $USER"
    );
    assert_eq!(DockerError::LoadInputUnavailable.message(), "Failed to open stdin for docker load");
}

#[test]
fn messages_with_details() {
    let e = DockerError::ImageFileUnreadable { path: "/p/a.tar.gz".to_string(), reason: "denied".to_string() };
    assert_eq!(
        e.message(),
        "Failed to open image file '/p/a.tar.gz': denied\n\nTroubleshooting:\n- Verify file exists: ls -lh /p/a.tar.gz\n- Check file permissions: chmod 644 /p/a.tar.gz\n- Ensure sufficient disk space: df -h"
    );
    let e = DockerError::LoadNotStarted { reason: "no such file".to_string() };
    assert_eq!(
        e.message(),
        "Failed to spawn 'docker load' command: no such file\n\nTroubleshooting:\n- Ensure Docker is installed: docker --version\n- Check Docker daemon is running: sudo systemctl status docker\n- Verify Docker permissions: docker ps"
    );
    let e = DockerError::StreamFailed { reason: "broken pipe".to_string(), path: "/p/b.tar.gz".to_string() };
    assert_eq!(
        e.message(),
        "Failed to stream image data to Docker: broken pipe\n\nTroubleshooting:\n- Check disk space: df -h\n- Verify image file is not corrupted: gzip -t /p/b.tar.gz\n- Check Docker daemon logs: sudo journalctl -u docker -n 50"
    );
    let e = DockerError::LoadWaitFailed { reason: "interrupted".to_string() };
    assert_eq!(e.message(), "Failed to wait for docker load: interrupted");
    let e = DockerError::ImageFileMissing { file: "qdrant.tar.gz".to_string() };
    assert_eq!(e.message(), "Image file not found: qdrant.tar.gz");
    let e = DockerError::ImageMissingAfterLoad { image: "postgres:15".to_string() };
    assert_eq!(e.message(), "Image not found after loading: postgres:15");
}

#[test]
fn load_failure_carries_trimmed_stderr() {
    assert!(load_verdict(true, "ignored", "postgres:15", "/p/postgres.tar.gz").is_ok());
    let e = load_verdict(false, "\n  no space left \n", "postgres:15", "/p/postgres.tar.gz").unwrap_err();
    assert_eq!(
        e.message(),
        "Failed to load image 'postgres:15': no space left\n\nTroubleshooting:\n- Ensure Docker daemon is running: sudo systemctl start docker\n- Check disk space: df -h /var/lib/docker\n- Verify image file integrity: sha256sum /p/postgres.tar.gz\n- Check Docker logs: sudo journalctl -u docker -n 50\n- Try manual load: gunzip -c /p/postgres.tar.gz | docker load"
    );
}

#[test]
fn probe_verdicts() {
    assert!(availability_verdict(true).is_ok());
    assert!(matches!(availability_verdict(false), Err(DockerError::NotInstalled)));
    assert!(daemon_verdict(true).is_ok());
    assert!(matches!(daemon_verdict(false), Err(DockerError::DaemonNotRunning)));
}

#[test]
fn image_check_ends_all_present() {
    let c = run(true, &[true; 4]);
    assert_eq!(c, ImageCheck::AllPresent);
    assert!(all_images_exist_verdict(c));
    assert!(images_loaded_verdict(c).is_ok());
}

#[test]
fn image_check_stops_at_first_missing() {
    let mut present = [true; 4];
    present[1] = false;
    present[3] = false;
    let c = run(true, &present);
    assert_eq!(c, ImageCheck::Missing(1));
    assert!(!all_images_exist_verdict(c));
    let e = images_loaded_verdict(c).unwrap_err();
    assert_eq!(e.message(), "Image not found after loading: ghcr.io/nexusquantum/hypervisor-collector:latest");
}

#[test]
fn image_check_without_docker() {
    let c = run(false, &[true; 4]);
    assert_eq!(c, ImageCheck::DockerUnavailable);
    assert!(!all_images_exist_verdict(c));
}

#[test]
fn image_check_queries_in_order() {
    assert_eq!(start_image_check(true), ImageCheck::Query(0));
    assert_eq!(continue_image_check(0, true), ImageCheck::Query(1));
    assert_eq!(continue_image_check(2, true), ImageCheck::Query(3));
    assert_eq!(continue_image_check(3, true), ImageCheck::AllPresent);
    assert_eq!(continue_image_check(3, false), ImageCheck::Missing(3));
}

#[test]
fn archive_must_exist() {
    assert!(archive_verdict(0, true).is_ok());
    let e = archive_verdict(2, false).unwrap_err();
    assert_eq!(e.message(), "Image file not found: kubectl.tar.gz");
}

#[test]
fn progress_text() {
    assert_eq!(loading_summary(), "  Loading 4 Docker images...");
    assert_eq!(progress_line(0), "  [1/4] postgres:15-alpine");
    assert_eq!(progress_line(1), "  [2/4] ghcr.io/nexusquantum/hypervisor-collector:latest");
    assert_eq!(progress_line(2), "  [3/4] bitnami/kubectl:latest");
    assert_eq!(progress_line(3), "  [4/4] ghcr.io/nexusquantum/fluentd-hypervisor-collector:latest");
    assert_eq!(loading_line("postgres:15-alpine"), "    Loading postgres:15-alpine...");
}

fn load_all(present: &[bool], loads: &[bool]) -> (LoadStep, Vec<String>) {
    let mut step = start_loading();
    let mut order = Vec::new();
    while let LoadStep::Next(i) = step {
        if present[i] {
            order.push(progress_line(i));
        }
        step = continue_loading(i, present[i], loads[i]);
    }
    (step, order)
}

#[test]
fn loading_takes_images_in_documented_order() {
    let (end, order) = load_all(&[true; 4], &[true; 4]);
    assert_eq!(end, LoadStep::Finished);
    assert_eq!(
        order,
        vec![
            "  [1/4] postgres:15-alpine",
            "  [2/4] ghcr.io/nexusquantum/hypervisor-collector:latest",
            "  [3/4] bitnami/kubectl:latest",
            "  [4/4] ghcr.io/nexusquantum/fluentd-hypervisor-collector:latest",
        ]
    );
}

#[test]
fn loading_stops_at_first_failure() {
    let (end, order) = load_all(&[true, true, false, true], &[true; 4]);
    assert_eq!(end, LoadStep::Failed(2));
    assert_eq!(order.len(), 2);
    let (end, order) = load_all(&[true; 4], &[true, false, false, true]);
    assert_eq!(end, LoadStep::Failed(1));
    assert_eq!(order.len(), 2);
}
