use esp_bt::bt::driver::BtDriver;
use esp_bt::bt::memory::{free_bt_memory, reduce_bt_memory, BtMemory};
use esp_bt::bt::singleton::BtSingleton;
use esp_bt::bt::{Ble, BtDual, ControllerMode, EspBtMode};
use esp_bt::bt_controller::EspBtController;
use esp_bt::esp_error::{ESP_ERR_INVALID_ARG, ESP_ERR_INVALID_STATE, ESP_ERR_NO_MEM, ESP_OK};
use esp_bt::private::bt_controller::{Bringup, BringupStep};
use esp_bt::private::controller_config::{
    esp32_controller_config, Esp32ControllerSettings,
};
use esp_bt::private::cstr::to_cstring_arg;

type Handler = fn(u32) -> u32;

fn double(x: u32) -> u32 {
    x.wrapping_mul(2)
}

#[test]
fn singleton_take_is_exclusive() {
    let mut s: BtSingleton<u32, u32, Handler> = BtSingleton::new(7);
    assert!(s.take().is_ok());
    assert_eq!(s.take().unwrap_err().code(), ESP_ERR_INVALID_STATE);
    assert!(s.release().is_ok());
    assert_eq!(s.release().unwrap_err().code(), ESP_ERR_INVALID_STATE);
    assert!(s.take().is_ok());
}

#[test]
fn singleton_release_without_take_fails() {
    let mut s: BtSingleton<u32, u32, Handler> = BtSingleton::new(0);
    assert_eq!(s.release().unwrap_err().code(), ESP_ERR_INVALID_STATE);
}

#[test]
fn singleton_call_uses_callback_or_default() {
    let mut s: BtSingleton<u32, u32, Handler> = BtSingleton::new(7);
    assert_eq!(s.call(5), 7);
    s.subscribe(double);
    assert_eq!(s.call(5), 10);
    s.unsubscribe();
    assert_eq!(s.call(5), 7);
}

#[test]
fn singleton_release_unsubscribes() {
    let mut s: BtSingleton<u32, u32, Handler> = BtSingleton::new(1);
    s.take().unwrap();
    s.subscribe(double);
    assert_eq!(s.call(4), 8);
    s.release().unwrap();
    assert_eq!(s.call(4), 1);
    // A failed release still drops the callback.
    s.subscribe(double);
    assert!(s.release().is_err());
    assert_eq!(s.call(4), 1);
}

#[test]
fn memory_is_released_once() {
    let mut m = BtMemory::new();
    assert_eq!(reduce_bt_memory(&m, ControllerMode::Btdm), Ok(None));
    assert_eq!(free_bt_memory(&m), Ok(EspBtMode::Btdm));
    assert_eq!(m.complete(Some(ESP_OK)), Ok(()));
    assert_eq!(reduce_bt_memory(&m, ControllerMode::Btdm).unwrap_err().code(), ESP_ERR_INVALID_STATE);
    assert_eq!(free_bt_memory(&m).unwrap_err().code(), ESP_ERR_INVALID_STATE);
}

#[test]
fn memory_failed_release_can_be_retried() {
    let mut m = BtMemory::new();
    assert_eq!(m.complete(Some(ESP_ERR_NO_MEM)).unwrap_err().code(), ESP_ERR_NO_MEM);
    assert!(reduce_bt_memory(&m, ControllerMode::Btdm).is_ok());
    assert_eq!(m.complete(None), Ok(()));
    assert!(reduce_bt_memory(&m, ControllerMode::Btdm).is_err());
}

#[test]
fn memory_release_per_configuration() {
    let m = BtMemory::new();
    assert_eq!(reduce_bt_memory(&m, ControllerMode::BrEdrOnly), Ok(Some(EspBtMode::Ble)));
    assert_eq!(reduce_bt_memory(&m, ControllerMode::BleOnly), Ok(None));
    assert_eq!(reduce_bt_memory(&m, ControllerMode::Btdm), Ok(None));
}

#[test]
fn cstring_arg_appends_nul() {
    assert_eq!(to_cstring_arg("esp").unwrap(), b"esp\0".to_vec());
    assert_eq!(to_cstring_arg("").unwrap(), vec![0u8]);
    assert_eq!(to_cstring_arg("a\0b").unwrap_err().code(), ESP_ERR_INVALID_ARG);
}

fn settings() -> Esp32ControllerSettings {
    Esp32ControllerSettings {
        magic: 0x2025_0318,
        task_stack_size: 4096,
        task_prio: 23,
        hci_uart_no: 1,
        hci_uart_baudrate: 921600,
        scan_duplicate_mode: 0,
        scan_duplicate_type: 0,
        normal_adv_size: 100,
        mesh_adv_size: 0,
        send_adv_reserved_size: 1000,
        controller_debug_flag: 0,
        ble_max_conn: 3,
        bt_max_acl_conn: 2,
        bt_sco_datapath: 0,
        auto_latency: 0,
        legacy_auth_vendor_evt: 1,
        ble_sca: 0,
        pcm_role: 0,
        pcm_polar: 0,
        hli: 1,
        enc_key_sz_min: 7,
        dup_list_refresh_period: 0,
        scan_backoff_upperlimitmax: 0,
        ble_llcp_disc_flag: 7,
        check_connect_ind_access_address: 0,
        ble_chan_ass_en: 1,
        ble_ping_en: 1,
    }
}

#[test]
fn controller_config_copies_settings() {
    let c = esp32_controller_config(&settings(), EspBtMode::Btdm);
    assert_eq!(c.magic, 0x2025_0318);
    assert_eq!(c.controller_task_stack_size, 4096);
    assert_eq!(c.controller_task_prio, 23);
    assert_eq!(c.hci_uart_baudrate, 921600);
    assert_eq!(c.mode, 3);
    assert_eq!(c.ble_max_conn, 3);
    assert_eq!(c.bt_max_sync_conn, 1);
    assert!(!c.auto_latency);
    assert!(c.bt_legacy_auth_vs_evt);
    assert!(c.hli);
    assert!(!c.ble_scan_backoff);
    assert!(!c.ble_aa_check);
    assert_eq!(c.enc_key_sz_min, 7);
    assert_eq!(c.ble_llcp_disc_flag, 7);
    assert_eq!(c.send_adv_reserved_size, 1000);
}

#[test]
fn controller_config_narrows_to_field_width() {
    let mut s = settings();
    s.task_prio = 0x1_05;
    s.task_stack_size = 0x1_0010;
    let c = esp32_controller_config(&s, EspBtMode::Ble);
    assert_eq!(c.controller_task_prio, 5);
    assert_eq!(c.controller_task_stack_size, 0x10);
    assert_eq!(c.mode, 1);
}

#[test]
fn driver_bringup_runs_all_calls() {
    let mut b = BtDriver::<BtDual>::bringup(ControllerMode::Btdm);
    let mut seen = Vec::new();
    while let Some(step) = b.next_step() {
        seen.push(step);
        b.report(ESP_OK);
    }
    assert_eq!(
        seen,
        vec![
            BringupStep::ControllerInit,
            BringupStep::ControllerEnable(EspBtMode::Btdm),
            BringupStep::BluedroidInit,
            BringupStep::BluedroidEnable,
        ]
    );
    assert_eq!(b.outcome(), Some(Ok(())));
    assert!(BtDriver::<BtDual>::new(ControllerMode::Btdm, &b).is_ok());
}

#[test]
fn driver_bringup_stops_at_first_failure() {
    let mut b = BtDriver::<Ble>::bringup(ControllerMode::Btdm);
    assert_eq!(b.next_step(), Some(BringupStep::ControllerInit));
    b.report(ESP_OK);
    assert_eq!(b.next_step(), Some(BringupStep::ControllerEnable(EspBtMode::Btdm)));
    b.report(ESP_ERR_INVALID_STATE);
    assert_eq!(b.next_step(), None);
    let err = b.outcome().unwrap().unwrap_err();
    assert_eq!(err.code(), ESP_ERR_INVALID_STATE);
    assert_eq!(BtDriver::<Ble>::new(ControllerMode::Btdm, &b).err().map(|e| e.code()), Some(ESP_ERR_INVALID_STATE));
}

#[test]
fn controller_bringup_has_no_host_calls() {
    let mut b = EspBtController::<esp_bt::bt_controller::Ble>::bringup(ControllerMode::BleOnly);
    let mut count = 0;
    while let Some(step) = b.next_step() {
        assert!(step != BringupStep::BluedroidInit && step != BringupStep::BluedroidEnable);
        count += 1;
        b.report(ESP_OK);
    }
    assert_eq!(count, 2);
    assert!(EspBtController::<esp_bt::bt_controller::Ble>::new(ControllerMode::BleOnly, &b).is_ok());
}

#[test]
fn bringup_in_progress_has_no_outcome() {
    let b = Bringup::new(EspBtMode::Ble, false);
    assert_eq!(b.outcome(), None);
    assert_eq!(b.next_step(), Some(BringupStep::ControllerInit));
}

#[test]
fn ble_only_controller_is_enabled_for_ble() {
    let mut b = EspBtController::<esp_bt::bt_controller::Ble>::bringup(ControllerMode::BleOnly);
    assert_eq!(b.next_step(), Some(BringupStep::ControllerInit));
    b.report(ESP_OK);
    assert_eq!(b.next_step(), Some(BringupStep::ControllerEnable(EspBtMode::Ble)));
    b.report(ESP_OK);
    assert_eq!(b.next_step(), None);
    assert!(EspBtController::<esp_bt::bt_controller::Ble>::new(ControllerMode::BleOnly, &b).is_ok());
}

#[test]
fn classic_only_driver_is_enabled_for_classic() {
    let mut b = BtDriver::<esp_bt::bt::BtClassic>::bringup(ControllerMode::BrEdrOnly);
    assert_eq!(b.next_step(), Some(BringupStep::ControllerInit));
    b.report(ESP_OK);
    assert_eq!(b.next_step(), Some(BringupStep::ControllerEnable(EspBtMode::ClassicBt)));
}
