use quantum_exegol::container::{ContainerManager, ContainerStatus};
use quantum_exegol::ident::{epoch_offset, now_rfc3339, to_lower_hex};
use quantum_exegol::image::ImageManager;

#[test]
fn container_listing() {
    let all = ContainerManager::list();
    assert_eq!(all.len(), 2);
    assert_eq!(all[0].id, "abc123def456");
    assert_eq!(all[0].name, "quantum-001");
    assert_eq!(all[0].ports[0].host_port, 2222);
    assert_eq!(all[0].ports[0].container_port, 22);
    assert_eq!(all[0].ports[0].protocol, "tcp");
    assert_eq!(all[1].image, "quantum/security:full");
    assert_eq!(all[1].created, "2026-02-21T14:30:00Z");
}

#[test]
fn running_listing_keeps_order() {
    let running = ContainerManager::list_running();
    assert_eq!(running.len(), 2);
    assert_eq!(running[0].name, "quantum-001");
    assert_eq!(running[1].name, "quantum-002");
    assert!(running.iter().all(|c| c.status == ContainerStatus::Running));
}

#[test]
fn start_and_create() {
    let c = ContainerManager::start("box").unwrap();
    assert_eq!(c.id, "new-container-id");
    assert_eq!(c.name, "box");
    assert_eq!(c.image, "quantum/security:latest");
    assert_eq!(c.status, ContainerStatus::Running);
    assert!(c.ports.is_empty());
    let c = ContainerManager::create("box2", "quantum/pentest:latest").unwrap();
    assert_eq!(c.name, "box2");
    assert_eq!(c.image, "quantum/pentest:latest");
    assert!(!c.id.is_empty());
    assert!(c.id.chars().all(|d| d.is_ascii_hexdigit() && !d.is_ascii_uppercase()));
    assert!(ContainerManager::stop("box").is_ok());
    assert!(ContainerManager::remove("box").is_ok());
    assert_eq!(ContainerManager::exec("box", &["ls".to_string()]).unwrap(), "Command output placeholder");
}

#[test]
fn lower_hex_values() {
    assert_eq!(to_lower_hex(0), "0");
    assert_eq!(to_lower_hex(15), "f");
    assert_eq!(to_lower_hex(255), "ff");
    assert_eq!(to_lower_hex(0x1a2b3c), "1a2b3c");
    assert_eq!(to_lower_hex(u128::MAX), "ffffffffffffffffffffffffffffffff");
}

#[test]
fn image_listing() {
    let images = ImageManager::list();
    assert_eq!(images.len(), 4);
    assert_eq!(images[0].size, 2_300_000_000);
    assert_eq!(images[1].tag, "full");
    assert_eq!(images[2].digest.as_deref(), Some("sha256:ghi789jkl012..."));
    assert_eq!(images[3].repository, "quantum/pentest");
}

#[test]
fn image_operations() {
    let i = ImageManager::pull("quantum/security", "light").unwrap();
    assert!(i.id.starts_with("sha256:"));
    assert!(i.id.len() > "sha256:".len());
    assert_eq!(i.repository, "quantum/security");
    assert_eq!(i.tag, "light");
    assert_eq!(i.size, 2_000_000_000);
    assert!(i.digest.is_none());
    let b = ImageManager::build("Dockerfile", "mine").unwrap();
    assert_eq!(b.repository, "quantum/custom");
    assert_eq!(b.size, 1_500_000_000);
    let f = ImageManager::fresh_image(0xbeef, "r", "t", 5, "now".to_string());
    assert_eq!(f.id, "sha256:beef");
    assert!(ImageManager::remove("r", "t").is_ok());
    assert_eq!(ImageManager::info("r", "t").unwrap().size, 2_000_000_000);
}

#[test]
fn clock_readings_as_epoch_offsets() {
    assert_eq!(epoch_offset(Ok((1_700_000_000, 5))), Some((1_700_000_000, 5)));
    assert_eq!(epoch_offset(Err((3, 0))), Some((-3, 0)));
    assert_eq!(epoch_offset(Err((3, 250_000_000))), Some((-4, 750_000_000)));
    assert_eq!(epoch_offset(Ok((u64::MAX, 0))), None);
    assert_eq!(epoch_offset(Err((1u64 << 63, 0))), Some((i64::MIN, 0)));
    assert_eq!(epoch_offset(Err((1u64 << 63, 1))), None);
}

#[test]
fn current_time_is_rfc3339() {
    let t = now_rfc3339().unwrap();
    assert!(t.len() >= 20);
    assert_eq!(&t[4..5], "-");
    assert_eq!(&t[10..11], "T");
    assert!(t.ends_with("+00:00"));
}
