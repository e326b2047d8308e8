use sheepit_manager::config::Config;
use sheepit_manager::config::Cpu;
use sheepit_manager::config::Defaults;
use sheepit_manager::config::General;
use sheepit_manager::config::Gpu;
use sheepit_manager::config::GpuEntry;
use sheepit_manager::config::Paths;
use sheepit_manager::config::config_summary;
use sheepit_manager::config::confirm_overwrite;
use sheepit_manager::config::default_config;
use sheepit_manager::hardware::GpuInfo;

#[test]
fn default_config_without_gpus() {
    let config = default_config(&Vec::new());
    assert_eq!(config.general.client_name, "");
    assert!(!config.general.shared_zip);
    assert_eq!(config.general.username, "");
    assert_eq!(config.general.renderkey, "");
    assert!(config.general.headless);
    assert_eq!(config.general.server, "https://sheepit-renderfarm.com");
    assert!(!config.general.debug);
    assert_eq!(config.paths.sheepit_cache_dir, "/tmp/sheepitm/cache");
    assert_eq!(config.paths.shared_zip_dir, "");
    assert_eq!(config.paths.sheepit_client_location, "/tmp/sheepitm/client.jar");
    assert_eq!(config.paths.log_dir, "/tmp/sheepitm/logs");
    assert_eq!(config.defaults.ram, 0);
    assert_eq!(config.defaults.cores, 0);
    assert_eq!(config.cpu.ram, 0);
    assert_eq!(config.cpu.cores, 0);
    assert!(!config.cpu.enabled);
    assert!(config.gpu.is_empty());
}

#[test]
fn default_config_keys_each_gpu_by_short_name_and_index() {
    let gpus = vec![
        GpuInfo {
            index: 0,
            gpu_name: String::from("NVIDIA GeForce RTX 3080"),
            short_name: String::from("3080"),
        },
        GpuInfo {
            index: 1,
            gpu_name: String::from("NVIDIA GeForce GTX 1070 Ti"),
            short_name: String::from("1070ti"),
        },
    ];
    let config = default_config(&gpus);
    assert_eq!(config.gpu.len(), 2);
    assert_eq!(config.gpu[0].key, "3080-0");
    assert_eq!(config.gpu[0].gpu.optix_id, "OPTIX_0");
    assert_eq!(config.gpu[0].gpu.ram, 0);
    assert_eq!(config.gpu[0].gpu.cores, 0);
    assert!(config.gpu[0].gpu.enabled);
    assert_eq!(config.gpu[1].key, "1070ti-1");
    assert_eq!(config.gpu[1].gpu.optix_id, "OPTIX_1");
}

#[test]
fn overwrite_needs_no_confirmation_when_the_file_is_absent() {
    assert!(confirm_overwrite(false, ""));
    assert!(confirm_overwrite(false, "whatever"));
}

#[test]
fn overwrite_of_an_existing_file_needs_an_affirmative_reply() {
    assert!(confirm_overwrite(true, "y"));
    assert!(confirm_overwrite(true, "Y"));
    assert!(confirm_overwrite(true, "  y\n"));
    assert!(confirm_overwrite(true, "\ty \r\n"));
    assert!(!confirm_overwrite(true, ""));
    assert!(!confirm_overwrite(true, "n"));
    assert!(!confirm_overwrite(true, "yes"));
    assert!(!confirm_overwrite(true, "y y"));
    assert!(!confirm_overwrite(true, "  \n"));
}

#[test]
fn summary_lists_the_account_paths_cpu_and_gpus() {
    let config = Config {
        general: General {
            client_name: String::from("farm"),
            shared_zip: false,
            username: String::from("alice"),
            renderkey: String::from("SECRET-REDACTED"),
            headless: true,
            server: String::from("https://sheepit-renderfarm.com"),
            debug: false,
        },
        paths: Paths {
            sheepit_cache_dir: String::from("/tmp/sheepitm/cache"),
            shared_zip_dir: String::new(),
            sheepit_client_location: String::from("/tmp/sheepitm/client.jar"),
            log_dir: String::from("/tmp/sheepitm/logs"),
        },
        defaults: Defaults { ram: 4, cores: 2 },
        cpu: Cpu { ram: 8, cores: 12, enabled: true },
        gpu: vec![GpuEntry {
            key: String::from("3080-0"),
            gpu: Gpu {
                ram: 10,
                cores: 0,
                optix_id: String::from("OPTIX_0"),
                enabled: false,
            },
        }],
    };
    let lines = config_summary(&config);
    assert_eq!(
        lines,
        vec![
            String::from("User: \"alice\", Client Name: \"farm\""),
            String::from(
                "Using Cache dir: \"/tmp/sheepitm/cache\" and client: \"/tmp/sheepitm/client.jar\""
            ),
            String::from("CPU -> Cores: 12, RAM: 8, Enabled: true"),
            String::from("3080-0 -> Cores: 0, RAM: 10, Optix ID: OPTIX_0, Enabled: false"),
        ]
    );
}
