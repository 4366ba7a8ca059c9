use mission_center::shm::{
    next_open_step, CreateOutcome, GPUInfo, GPUInfoDynamicInfo, GPUInfoStaticInfo, OpenStep,
    SharedMemoryData, DEFAULT_REFRESH_INTERVAL_MS, MAX_GPU_COUNT,
};

fn gpu(tag: u32) -> GPUInfo {
    GPUInfo {
        static_info: GPUInfoStaticInfo {
            device_name: [0; 128],
            max_pcie_gen: tag,
            max_pcie_link_width: 16,
            temperature_shutdown_threshold: 100,
            temperature_slowdown_threshold: 90,
            integrated_graphics: 0,
            valid: [0; 1],
        },
        dynamic_info: GPUInfoDynamicInfo {
            gpu_clock_speed: tag * 10,
            gpu_clock_speed_max: 0,
            mem_clock_speed: 0,
            mem_clock_speed_max: 0,
            gpu_util_rate: 0,
            mem_util_rate: 0,
            encoder_rate: 0,
            decoder_rate: 0,
            total_memory: 0,
            free_memory: 0,
            used_memory: 0,
            pcie_link_gen: 0,
            pcie_link_width: 0,
            pcie_rx: 0,
            pcie_tx: 0,
            fan_speed: 0,
            gpu_temp: 0,
            power_draw: 0,
            power_draw_max: 0,
            encode_decode_shared: 0,
            valid: [0; 3],
        },
    }
}

fn table() -> SharedMemoryData {
    SharedMemoryData {
        gpu_count: 5,
        gpu_info: [gpu(99); MAX_GPU_COUNT],
        refresh_interval_ms: 7,
        stop_daemon: true,
    }
}

#[test]
fn initialize_empties_the_table() {
    let mut t = table();
    t.initialize();
    assert_eq!(t.gpu_count, 0);
    assert_eq!(t.refresh_interval_ms, DEFAULT_REFRESH_INTERVAL_MS);
    assert_eq!(t.refresh_interval_ms, 200);
    assert!(t.stop_daemon);
    assert!(t.visible_gpus().is_empty());
}

#[test]
fn readers_see_what_was_published() {
    let mut t = table();
    t.initialize();
    t.publish_gpus(2, &[gpu(1), gpu(2)]);
    let seen = t.visible_gpus();
    assert_eq!(seen.len(), 2);
    assert_eq!(seen[0].static_info.max_pcie_gen, 1);
    assert_eq!(seen[1].dynamic_info.gpu_clock_speed, 20);
    assert_eq!(t.gpu_info[2].static_info.max_pcie_gen, 99);
    assert_eq!(t.refresh_interval_ms, 200);
}

#[test]
fn empty_publish_keeps_the_count() {
    let mut t = table();
    t.publish_gpus(3, &[]);
    assert_eq!(t.gpu_count, 5);
    assert_eq!(t.visible_gpus().len(), 5);
}

#[test]
fn open_steps() {
    assert!(matches!(next_open_step(CreateOutcome::Created, false), OpenStep::UseCreated));
    assert!(matches!(
        next_open_step(CreateOutcome::LinkExists, true),
        OpenStep::RemoveLinkAndRecreate
    ));
    assert!(matches!(next_open_step(CreateOutcome::LinkExists, false), OpenStep::OpenExisting));
    assert!(matches!(next_open_step(CreateOutcome::Failed, true), OpenStep::GiveUp));
}
