use soft_kvm::platform::devices::PlatformManager;

#[test]
fn test_platform_manager_creation() {
    let manager = PlatformManager::new("linux", true);
    match manager {
        Ok(mgr) => {
            assert!(mgr.is_supported() || !mgr.is_supported());
            let info = mgr.platform_info("linux", "x86_64", "unix");
            assert!(!info.os.is_empty());
            assert!(!info.arch.is_empty());
        }
        Err(e) => {
            println!("Platform not supported: {:?}", e);
        }
    }
}
