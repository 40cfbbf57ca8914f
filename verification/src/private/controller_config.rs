//! The Bluetooth controller configuration (`esp_bt_controller_config_t`) of
//! each chip family, as ESP-IDF 5.5 lays it out: the ESP32; the ESP32-C3 and
//! ESP32-S3; and the chips with the NimBLE link layer (ESP32-C2, -C5, -C6 and
//! -H2). The configuration is made from build-time settings (sdkconfig
//! values and ESP-IDF defaults). For the ESP32 the values are narrowed to the
//! C field widths here; for the other families they are kept at 32 bits and
//! narrowed where the raw structure is built.
use vstd::prelude::*;

use crate::bt::EspBtMode;

verus! {

/// The build-time settings (sdkconfig values and ESP-IDF defaults) that the
/// ESP32 controller configuration is made from.
#[derive(Debug, Clone, Copy, PartialEq, Eq)]
pub struct Esp32ControllerSettings {
    /// `ESP_BT_CONTROLLER_CONFIG_MAGIC_VAL`
    pub magic: u32,
    /// `ESP_TASK_BT_CONTROLLER_STACK`
    pub task_stack_size: u32,
    /// `ESP_TASK_BT_CONTROLLER_PRIO`
    pub task_prio: u32,
    /// `BT_HCI_UART_NO_DEFAULT`
    pub hci_uart_no: u32,
    /// `BT_HCI_UART_BAUDRATE_DEFAULT`
    pub hci_uart_baudrate: u32,
    /// `SCAN_DUPLICATE_MODE`
    pub scan_duplicate_mode: u32,
    /// `SCAN_DUPLICATE_TYPE_VALUE`
    pub scan_duplicate_type: u32,
    /// `NORMAL_SCAN_DUPLICATE_CACHE_SIZE`
    pub normal_adv_size: u32,
    /// `MESH_DUPLICATE_SCAN_CACHE_SIZE`
    pub mesh_adv_size: u32,
    /// `SCAN_SEND_ADV_RESERVED_SIZE`
    pub send_adv_reserved_size: u32,
    /// `CONTROLLER_ADV_LOST_DEBUG_BIT`
    pub controller_debug_flag: u32,
    /// `CONFIG_BTDM_CTRL_BLE_MAX_CONN_EFF`
    pub ble_max_conn: u32,
    /// `CONFIG_BTDM_CTRL_BR_EDR_MAX_ACL_CONN_EFF`
    pub bt_max_acl_conn: u32,
    /// `CONFIG_BTDM_CTRL_BR_EDR_SCO_DATA_PATH_EFF`
    pub bt_sco_datapath: u32,
    /// `BTDM_CTRL_AUTO_LATENCY_EFF`
    pub auto_latency: u32,
    /// `BTDM_CTRL_LEGACY_AUTH_VENDOR_EVT_EFF`
    pub legacy_auth_vendor_evt: u32,
    /// `CONFIG_BTDM_BLE_SLEEP_CLOCK_ACCURACY_INDEX_EFF`
    pub ble_sca: u32,
    /// `CONFIG_BTDM_CTRL_PCM_ROLE_EFF`
    pub pcm_role: u32,
    /// `CONFIG_BTDM_CTRL_PCM_POLAR_EFF`
    pub pcm_polar: u32,
    /// `BTDM_CTRL_HLI`
    pub hli: u32,
    /// `CONFIG_BTDM_CTRL_BR_EDR_MIN_ENC_KEY_SZ_DFT_EFF`
    pub enc_key_sz_min: u32,
    /// `SCAN_DUPL_CACHE_REFRESH_PERIOD`
    pub dup_list_refresh_period: u32,
    /// `BTDM_CTRL_SCAN_BACKOFF_UPPERLIMITMAX`
    pub scan_backoff_upperlimitmax: u32,
    /// `BTDM_BLE_LLCP_DISC_FLAG`
    pub ble_llcp_disc_flag: u32,
    /// `BTDM_CTRL_CHECK_CONNECT_IND_ACCESS_ADDRESS_ENABLED`
    pub check_connect_ind_access_address: u32,
    /// `BTDM_BLE_CHAN_ASS_EN`
    pub ble_chan_ass_en: u32,
    /// `BTDM_BLE_PING_EN`
    pub ble_ping_en: u32,
}

/// `esp_bt_controller_config_t` of the ESP32.
#[derive(Debug, Clone, Copy, PartialEq, Eq)]
pub struct Esp32ControllerConfig {
    pub controller_task_stack_size: u16,
    pub controller_task_prio: u8,
    pub hci_uart_no: u8,
    pub hci_uart_baudrate: u32,
    pub scan_duplicate_mode: u8,
    pub scan_duplicate_type: u8,
    pub normal_adv_size: u16,
    pub mesh_adv_size: u16,
    pub send_adv_reserved_size: u16,
    pub controller_debug_flag: u32,
    pub mode: u8,
    pub ble_max_conn: u8,
    pub bt_max_acl_conn: u8,
    pub bt_sco_datapath: u8,
    pub auto_latency: bool,
    pub bt_legacy_auth_vs_evt: bool,
    pub bt_max_sync_conn: u8,
    pub ble_sca: u8,
    pub pcm_role: u8,
    pub pcm_polar: u8,
    pub hli: bool,
    pub enc_key_sz_min: u8,
    pub dup_list_refresh_period: u16,
    pub ble_scan_backoff: bool,
    pub ble_llcp_disc_flag: u8,
    pub ble_aa_check: bool,
    pub ble_chan_ass_en: u8,
    pub ble_ping_en: u8,
    pub magic: u32,
}

/// The controller configuration for `mode`: each setting narrowed to the
/// width of its field, flags set when their setting is non-zero, and at most
/// one synchronous Classic connection.
pub open spec fn spec_esp32_controller_config(s: Esp32ControllerSettings, mode: EspBtMode) -> Esp32ControllerConfig {
    Esp32ControllerConfig {
        controller_task_stack_size: s.task_stack_size as u16,
        controller_task_prio: s.task_prio as u8,
        hci_uart_no: s.hci_uart_no as u8,
        hci_uart_baudrate: s.hci_uart_baudrate,
        scan_duplicate_mode: s.scan_duplicate_mode as u8,
        scan_duplicate_type: s.scan_duplicate_type as u8,
        normal_adv_size: s.normal_adv_size as u16,
        mesh_adv_size: s.mesh_adv_size as u16,
        send_adv_reserved_size: s.send_adv_reserved_size as u16,
        controller_debug_flag: s.controller_debug_flag,
        mode: mode.spec_code() as u8,
        ble_max_conn: s.ble_max_conn as u8,
        bt_max_acl_conn: s.bt_max_acl_conn as u8,
        bt_sco_datapath: s.bt_sco_datapath as u8,
        auto_latency: s.auto_latency != 0,
        bt_legacy_auth_vs_evt: s.legacy_auth_vendor_evt != 0,
        bt_max_sync_conn: 1,
        ble_sca: s.ble_sca as u8,
        pcm_role: s.pcm_role as u8,
        pcm_polar: s.pcm_polar as u8,
        hli: s.hli != 0,
        enc_key_sz_min: s.enc_key_sz_min as u8,
        dup_list_refresh_period: s.dup_list_refresh_period as u16,
        ble_scan_backoff: s.scan_backoff_upperlimitmax != 0,
        ble_llcp_disc_flag: s.ble_llcp_disc_flag as u8,
        ble_aa_check: s.check_connect_ind_access_address != 0,
        ble_chan_ass_en: s.ble_chan_ass_en as u8,
        ble_ping_en: s.ble_ping_en as u8,
        magic: s.magic,
    }
}

/// Builds the controller configuration for `mode` from the build settings.
pub fn esp32_controller_config(s: &Esp32ControllerSettings, mode: EspBtMode) -> (r: Esp32ControllerConfig)
    ensures
        r == spec_esp32_controller_config(*s, mode),
        r.controller_task_stack_size == s.task_stack_size as u16,
        r.controller_task_prio == s.task_prio as u8,
        r.hci_uart_no == s.hci_uart_no as u8,
        r.hci_uart_baudrate == s.hci_uart_baudrate,
        r.scan_duplicate_mode == s.scan_duplicate_mode as u8,
        r.scan_duplicate_type == s.scan_duplicate_type as u8,
        r.normal_adv_size == s.normal_adv_size as u16,
        r.mesh_adv_size == s.mesh_adv_size as u16,
        r.send_adv_reserved_size == s.send_adv_reserved_size as u16,
        r.controller_debug_flag == s.controller_debug_flag,
        r.mode == mode.spec_code() as u8,
        r.ble_max_conn == s.ble_max_conn as u8,
        r.bt_max_acl_conn == s.bt_max_acl_conn as u8,
        r.bt_sco_datapath == s.bt_sco_datapath as u8,
        r.auto_latency == (s.auto_latency != 0),
        r.bt_legacy_auth_vs_evt == (s.legacy_auth_vendor_evt != 0),
        r.bt_max_sync_conn == 1,
        r.ble_sca == s.ble_sca as u8,
        r.pcm_role == s.pcm_role as u8,
        r.pcm_polar == s.pcm_polar as u8,
        r.hli == (s.hli != 0),
        r.enc_key_sz_min == s.enc_key_sz_min as u8,
        r.dup_list_refresh_period == s.dup_list_refresh_period as u16,
        r.ble_scan_backoff == (s.scan_backoff_upperlimitmax != 0),
        r.ble_llcp_disc_flag == s.ble_llcp_disc_flag as u8,
        r.ble_aa_check == (s.check_connect_ind_access_address != 0),
        r.ble_chan_ass_en == s.ble_chan_ass_en as u8,
        r.ble_ping_en == s.ble_ping_en as u8,
        r.magic == s.magic,
{
    Esp32ControllerConfig {
        controller_task_stack_size: s.task_stack_size as u16,
        controller_task_prio: s.task_prio as u8,
        hci_uart_no: s.hci_uart_no as u8,
        hci_uart_baudrate: s.hci_uart_baudrate,
        scan_duplicate_mode: s.scan_duplicate_mode as u8,
        scan_duplicate_type: s.scan_duplicate_type as u8,
        normal_adv_size: s.normal_adv_size as u16,
        mesh_adv_size: s.mesh_adv_size as u16,
        send_adv_reserved_size: s.send_adv_reserved_size as u16,
        controller_debug_flag: s.controller_debug_flag,
        mode: mode.code() as u8,
        ble_max_conn: s.ble_max_conn as u8,
        bt_max_acl_conn: s.bt_max_acl_conn as u8,
        bt_sco_datapath: s.bt_sco_datapath as u8,
        auto_latency: s.auto_latency != 0,
        bt_legacy_auth_vs_evt: s.legacy_auth_vendor_evt != 0,
        bt_max_sync_conn: 1,
        ble_sca: s.ble_sca as u8,
        pcm_role: s.pcm_role as u8,
        pcm_polar: s.pcm_polar as u8,
        hli: s.hli != 0,
        enc_key_sz_min: s.enc_key_sz_min as u8,
        dup_list_refresh_period: s.dup_list_refresh_period as u16,
        ble_scan_backoff: s.scan_backoff_upperlimitmax != 0,
        ble_llcp_disc_flag: s.ble_llcp_disc_flag as u8,
        ble_aa_check: s.check_connect_ind_access_address != 0,
        ble_chan_ass_en: s.ble_chan_ass_en as u8,
        ble_ping_en: s.ble_ping_en as u8,
        magic: s.magic,
    }
}

/// The build-time settings that the ESP32-C3 and ESP32-S3 controller configuration is made from.
#[derive(Debug, Clone, Copy, PartialEq, Eq)]
pub struct C3S3ControllerSettings {
    /// `ESP_BT_CTRL_CONFIG_MAGIC_VAL`
    pub magic: u32,
    /// `ESP_BT_CTRL_CONFIG_VERSION`
    pub version: u32,
    /// `ESP_TASK_BT_CONTROLLER_STACK`
    pub controller_task_stack_size: u32,
    /// `ESP_TASK_BT_CONTROLLER_PRIO`
    pub controller_task_prio: u32,
    /// `CONFIG_BT_CTRL_PINNED_TO_CORE`
    pub controller_task_run_cpu: u32,
    /// `CONFIG_BT_CTRL_MODE_EFF`
    pub bluetooth_mode: u32,
    /// `CONFIG_BT_CTRL_BLE_MAX_ACT_EFF`
    pub ble_max_act: u32,
    /// `CONFIG_BT_CTRL_SLEEP_MODE_EFF`
    pub sleep_mode: u32,
    /// `CONFIG_BT_CTRL_SLEEP_CLOCK_EFF`
    pub sleep_clock: u32,
    /// `CONFIG_BT_CTRL_BLE_STATIC_ACL_TX_BUF_NB`
    pub ble_st_acl_tx_buf_nb: u32,
    /// `CONFIG_BT_CTRL_HW_CCA_EFF`
    pub ble_hw_cca_check: u32,
    /// `CONFIG_BT_CTRL_ADV_DUP_FILT_MAX`
    pub ble_adv_dup_filt_max: u32,
    /// `CONFIG_BT_CTRL_CE_LENGTH_TYPE_EFF`
    pub ce_len_type: u32,
    /// `CONFIG_BT_CTRL_HCI_TL_EFF`
    pub hci_tl_type: u32,
    /// `CONFIG_BT_CTRL_TX_ANTENNA_INDEX_EFF`
    pub txant_dft: u32,
    /// `CONFIG_BT_CTRL_RX_ANTENNA_INDEX_EFF`
    pub rxant_dft: u32,
    /// `CONFIG_BT_CTRL_DFT_TX_POWER_LEVEL_EFF`
    pub txpwr_dft: u32,
    /// `CFG_MASK`
    pub cfg_mask: u32,
    /// `SCAN_DUPLICATE_MODE`
    pub scan_duplicate_mode: u32,
    /// `SCAN_DUPLICATE_TYPE_VALUE`
    pub scan_duplicate_type: u32,
    /// `NORMAL_SCAN_DUPLICATE_CACHE_SIZE`
    pub normal_adv_size: u32,
    /// `MESH_DUPLICATE_SCAN_CACHE_SIZE`
    pub mesh_adv_size: u32,
    /// `CONFIG_BT_CTRL_COEX_PHY_CODED_TX_RX_TLIM_EFF`
    pub coex_phy_coded_tx_rx_time_limit: u32,
    /// `BLE_HW_TARGET_CODE_CHIP_ECO0`
    pub hw_target_code: u32,
    /// `SLAVE_CE_LEN_MIN_DEFAULT`
    pub slave_ce_len_min: u32,
    /// `AGC_RECORRECT_EN`
    pub hw_recorrect_en: u32,
    /// `CONFIG_BT_CTRL_HW_CCA_VAL`
    pub cca_thresh: u32,
    /// `BT_CTRL_SCAN_BACKOFF_UPPERLIMITMAX`
    pub scan_backoff_upperlimitmax: u32,
    /// `DUPL_SCAN_CACHE_REFRESH_PERIOD`
    pub dup_list_refresh_period: u32,
    /// `BT_CTRL_50_FEATURE_SUPPORT`
    pub ble_50_feat_supp: u32,
    /// `BT_BLE_CCA_MODE`
    pub ble_cca_mode: u32,
    /// `BT_BLE_ADV_DATA_LENGTH_ZERO_AUX`
    pub ble_data_lenth_zero_aux: u32,
    /// `BT_CTRL_CHAN_ASS_EN`
    pub ble_chan_ass_en: u32,
    /// `BT_CTRL_LE_PING_EN`
    pub ble_ping_en: u32,
    /// `BT_CTRL_BLE_LLCP_DISC_FLAG`
    pub ble_llcp_disc_flag: u32,
    /// `BT_CTRL_RUN_IN_FLASH_ONLY`
    pub run_in_flash: u32,
    /// `BT_CTRL_DTM_ENABLE`
    pub dtm_en: u32,
    /// `BLE_SECURITY_ENABLE`
    pub enc_en: u32,
    /// `BT_CTRL_BLE_TEST`
    pub qa_test: u32,
    /// `BT_CTRL_BLE_MASTER`
    pub connect_en: u32,
    /// `BT_CTRL_BLE_SCAN`
    pub scan_en: u32,
    /// `BLE_CTRL_CHECK_CONNECT_IND_ACCESS_ADDRESS_ENABLED`
    pub ble_aa_check: u32,
    /// `BLE_LOG_MODE_EN`
    pub ble_log_mode_en: u32,
    /// `BLE_LOG_LEVEL`
    pub ble_log_level: u32,
    /// `BT_CTRL_BLE_ADV`
    pub adv_en: u32,
}

/// `esp_bt_controller_config_t` of the ESP32-C3 and ESP32-S3 (without the HCI transport function table, which is null).
#[derive(Debug, Clone, Copy, PartialEq, Eq)]
pub struct C3S3ControllerConfig {
    pub magic: u32,
    pub version: u32,
    pub controller_task_stack_size: u32,
    pub controller_task_prio: u32,
    pub controller_task_run_cpu: u32,
    pub bluetooth_mode: u32,
    pub ble_max_act: u32,
    pub sleep_mode: u32,
    pub sleep_clock: u32,
    pub ble_st_acl_tx_buf_nb: u32,
    pub ble_hw_cca_check: u32,
    pub ble_adv_dup_filt_max: u32,
    pub ce_len_type: u32,
    pub hci_tl_type: u32,
    pub txant_dft: u32,
    pub rxant_dft: u32,
    pub txpwr_dft: u32,
    pub cfg_mask: u32,
    pub scan_duplicate_mode: u32,
    pub scan_duplicate_type: u32,
    pub normal_adv_size: u32,
    pub mesh_adv_size: u32,
    pub coex_phy_coded_tx_rx_time_limit: u32,
    pub hw_target_code: u32,
    pub slave_ce_len_min: u32,
    pub hw_recorrect_en: u32,
    pub cca_thresh: u32,
    pub coex_param_en: bool,
    pub coex_use_hooks: bool,
    pub scan_backoff_upperlimitmax: u32,
    pub dup_list_refresh_period: u32,
    pub ble_50_feat_supp: bool,
    pub ble_cca_mode: u32,
    pub ble_data_lenth_zero_aux: u32,
    pub ble_chan_ass_en: u32,
    pub ble_ping_en: u32,
    pub ble_llcp_disc_flag: u32,
    pub run_in_flash: bool,
    pub dtm_en: bool,
    pub enc_en: bool,
    pub qa_test: bool,
    pub connect_en: bool,
    pub scan_en: bool,
    pub ble_aa_check: bool,
    pub ble_log_mode_en: u32,
    pub ble_log_level: u32,
    pub adv_en: bool,
}

/// The ESP32-C3/S3 controller configuration: each setting copied, and flags
/// set when their setting is non-zero. The Bluetooth mode comes from the
/// build settings, not from the mode the controller is enabled in.
pub open spec fn spec_c3s3_controller_config(s: C3S3ControllerSettings) -> C3S3ControllerConfig {
    C3S3ControllerConfig {
        magic: s.magic,
        version: s.version,
        controller_task_stack_size: s.controller_task_stack_size,
        controller_task_prio: s.controller_task_prio,
        controller_task_run_cpu: s.controller_task_run_cpu,
        bluetooth_mode: s.bluetooth_mode,
        ble_max_act: s.ble_max_act,
        sleep_mode: s.sleep_mode,
        sleep_clock: s.sleep_clock,
        ble_st_acl_tx_buf_nb: s.ble_st_acl_tx_buf_nb,
        ble_hw_cca_check: s.ble_hw_cca_check,
        ble_adv_dup_filt_max: s.ble_adv_dup_filt_max,
        ce_len_type: s.ce_len_type,
        hci_tl_type: s.hci_tl_type,
        txant_dft: s.txant_dft,
        rxant_dft: s.rxant_dft,
        txpwr_dft: s.txpwr_dft,
        cfg_mask: s.cfg_mask,
        scan_duplicate_mode: s.scan_duplicate_mode,
        scan_duplicate_type: s.scan_duplicate_type,
        normal_adv_size: s.normal_adv_size,
        mesh_adv_size: s.mesh_adv_size,
        coex_phy_coded_tx_rx_time_limit: s.coex_phy_coded_tx_rx_time_limit,
        hw_target_code: s.hw_target_code,
        slave_ce_len_min: s.slave_ce_len_min,
        hw_recorrect_en: s.hw_recorrect_en,
        cca_thresh: s.cca_thresh,
        coex_param_en: false,
        coex_use_hooks: false,
        scan_backoff_upperlimitmax: s.scan_backoff_upperlimitmax,
        dup_list_refresh_period: s.dup_list_refresh_period,
        ble_50_feat_supp: s.ble_50_feat_supp != 0,
        ble_cca_mode: s.ble_cca_mode,
        ble_data_lenth_zero_aux: s.ble_data_lenth_zero_aux,
        ble_chan_ass_en: s.ble_chan_ass_en,
        ble_ping_en: s.ble_ping_en,
        ble_llcp_disc_flag: s.ble_llcp_disc_flag,
        run_in_flash: s.run_in_flash != 0,
        dtm_en: s.dtm_en != 0,
        enc_en: s.enc_en != 0,
        qa_test: s.qa_test != 0,
        connect_en: s.connect_en != 0,
        scan_en: s.scan_en != 0,
        ble_aa_check: s.ble_aa_check != 0,
        ble_log_mode_en: s.ble_log_mode_en,
        ble_log_level: s.ble_log_level,
        adv_en: s.adv_en != 0,
    }
}

/// Builds the ESP32-C3/S3 controller configuration from the build settings.
pub fn c3s3_controller_config(s: &C3S3ControllerSettings) -> (r: C3S3ControllerConfig)
    ensures
        r == spec_c3s3_controller_config(*s),
        r.magic == s.magic,
        r.version == s.version,
        r.controller_task_stack_size == s.controller_task_stack_size,
        r.controller_task_prio == s.controller_task_prio,
        r.controller_task_run_cpu == s.controller_task_run_cpu,
        r.bluetooth_mode == s.bluetooth_mode,
        r.ble_max_act == s.ble_max_act,
        r.sleep_mode == s.sleep_mode,
        r.sleep_clock == s.sleep_clock,
        r.ble_st_acl_tx_buf_nb == s.ble_st_acl_tx_buf_nb,
        r.ble_hw_cca_check == s.ble_hw_cca_check,
        r.ble_adv_dup_filt_max == s.ble_adv_dup_filt_max,
        r.ce_len_type == s.ce_len_type,
        r.hci_tl_type == s.hci_tl_type,
        r.txant_dft == s.txant_dft,
        r.rxant_dft == s.rxant_dft,
        r.txpwr_dft == s.txpwr_dft,
        r.cfg_mask == s.cfg_mask,
        r.scan_duplicate_mode == s.scan_duplicate_mode,
        r.scan_duplicate_type == s.scan_duplicate_type,
        r.normal_adv_size == s.normal_adv_size,
        r.mesh_adv_size == s.mesh_adv_size,
        r.coex_phy_coded_tx_rx_time_limit == s.coex_phy_coded_tx_rx_time_limit,
        r.hw_target_code == s.hw_target_code,
        r.slave_ce_len_min == s.slave_ce_len_min,
        r.hw_recorrect_en == s.hw_recorrect_en,
        r.cca_thresh == s.cca_thresh,
        r.coex_param_en == false,
        r.coex_use_hooks == false,
        r.scan_backoff_upperlimitmax == s.scan_backoff_upperlimitmax,
        r.dup_list_refresh_period == s.dup_list_refresh_period,
        r.ble_50_feat_supp == (s.ble_50_feat_supp != 0),
        r.ble_cca_mode == s.ble_cca_mode,
        r.ble_data_lenth_zero_aux == s.ble_data_lenth_zero_aux,
        r.ble_chan_ass_en == s.ble_chan_ass_en,
        r.ble_ping_en == s.ble_ping_en,
        r.ble_llcp_disc_flag == s.ble_llcp_disc_flag,
        r.run_in_flash == (s.run_in_flash != 0),
        r.dtm_en == (s.dtm_en != 0),
        r.enc_en == (s.enc_en != 0),
        r.qa_test == (s.qa_test != 0),
        r.connect_en == (s.connect_en != 0),
        r.scan_en == (s.scan_en != 0),
        r.ble_aa_check == (s.ble_aa_check != 0),
        r.ble_log_mode_en == s.ble_log_mode_en,
        r.ble_log_level == s.ble_log_level,
        r.adv_en == (s.adv_en != 0),
{
    C3S3ControllerConfig {
        magic: s.magic,
        version: s.version,
        controller_task_stack_size: s.controller_task_stack_size,
        controller_task_prio: s.controller_task_prio,
        controller_task_run_cpu: s.controller_task_run_cpu,
        bluetooth_mode: s.bluetooth_mode,
        ble_max_act: s.ble_max_act,
        sleep_mode: s.sleep_mode,
        sleep_clock: s.sleep_clock,
        ble_st_acl_tx_buf_nb: s.ble_st_acl_tx_buf_nb,
        ble_hw_cca_check: s.ble_hw_cca_check,
        ble_adv_dup_filt_max: s.ble_adv_dup_filt_max,
        ce_len_type: s.ce_len_type,
        hci_tl_type: s.hci_tl_type,
        txant_dft: s.txant_dft,
        rxant_dft: s.rxant_dft,
        txpwr_dft: s.txpwr_dft,
        cfg_mask: s.cfg_mask,
        scan_duplicate_mode: s.scan_duplicate_mode,
        scan_duplicate_type: s.scan_duplicate_type,
        normal_adv_size: s.normal_adv_size,
        mesh_adv_size: s.mesh_adv_size,
        coex_phy_coded_tx_rx_time_limit: s.coex_phy_coded_tx_rx_time_limit,
        hw_target_code: s.hw_target_code,
        slave_ce_len_min: s.slave_ce_len_min,
        hw_recorrect_en: s.hw_recorrect_en,
        cca_thresh: s.cca_thresh,
        coex_param_en: false,
        coex_use_hooks: false,
        scan_backoff_upperlimitmax: s.scan_backoff_upperlimitmax,
        dup_list_refresh_period: s.dup_list_refresh_period,
        ble_50_feat_supp: s.ble_50_feat_supp != 0,
        ble_cca_mode: s.ble_cca_mode,
        ble_data_lenth_zero_aux: s.ble_data_lenth_zero_aux,
        ble_chan_ass_en: s.ble_chan_ass_en,
        ble_ping_en: s.ble_ping_en,
        ble_llcp_disc_flag: s.ble_llcp_disc_flag,
        run_in_flash: s.run_in_flash != 0,
        dtm_en: s.dtm_en != 0,
        enc_en: s.enc_en != 0,
        qa_test: s.qa_test != 0,
        connect_en: s.connect_en != 0,
        scan_en: s.scan_en != 0,
        ble_aa_check: s.ble_aa_check != 0,
        ble_log_mode_en: s.ble_log_mode_en,
        ble_log_level: s.ble_log_level,
        adv_en: s.adv_en != 0,
    }
}

/// The chips whose controller has the NimBLE link layer.
#[derive(Debug, Clone, Copy, PartialEq, Eq, Structural)]
pub enum NimbleChip {
    C2,
    C5,
    C6,
    H2,
}

/// The build-time settings that the NimBLE controller configuration is made from.
#[derive(Debug, Clone, Copy, PartialEq, Eq)]
pub struct NimbleControllerSettings {
    /// `CONFIG_VERSION`
    pub config_version: u32,
    /// `CONFIG_BT_LE_LL_RESOLV_LIST_SIZE`
    pub ble_ll_resolv_list_size: u32,
    /// `DEFAULT_BT_LE_HCI_EVT_HI_BUF_COUNT`
    pub ble_hci_evt_hi_buf_count: u32,
    /// `DEFAULT_BT_LE_HCI_EVT_LO_BUF_COUNT`
    pub ble_hci_evt_lo_buf_count: u32,
    /// `DEFAULT_BT_LE_MAX_PERIODIC_ADVERTISER_LIST`
    pub ble_ll_sync_list_cnt: u32,
    /// `DEFAULT_BT_LE_MAX_PERIODIC_SYNCS`
    pub ble_ll_sync_cnt: u32,
    /// `CONFIG_BT_LE_LL_DUP_SCAN_LIST_COUNT`
    pub ll_dup_scan_list_count: u32,
    /// `BLE_LL_TX_PWR_DBM_N`
    pub ll_tx_pwr_dbm: u32,
    /// `RTC_FREQ_N`
    pub rtc_freq: u32,
    /// `CONFIG_BT_LE_LL_SCA`
    pub ble_ll_sca: u32,
    /// `BLE_LL_SCAN_PHY_NUMBER_N`
    pub ble_ll_scan_phy_number: u32,
    /// `BLE_LL_CONN_DEF_AUTH_PYLD_TMO_N`
    pub ble_ll_conn_def_auth_pyld_tmo: u32,
    /// `BLE_LL_JITTER_USECS_N`
    pub ble_ll_jitter_usecs: u32,
    /// `BLE_LL_SCHED_MAX_ADV_PDU_USECS_N`
    pub ble_ll_sched_max_adv_pdu_usecs: u32,
    /// `BLE_LL_SCHED_DIRECT_ADV_MAX_USECS_N`
    pub ble_ll_sched_direct_adv_max_usecs: u32,
    /// `BLE_LL_SCHED_ADV_MAX_USECS_N`
    pub ble_ll_sched_adv_max_usecs: u32,
    /// `DEFAULT_BT_LE_SCAN_RSP_DATA_MAX_LEN_N`
    pub ble_scan_rsp_data_max_len: u32,
    /// `BLE_LL_CFG_NUM_HCI_CMD_PKTS_N`
    pub ble_ll_cfg_num_hci_cmd_pkts: u32,
    /// `BLE_LL_CTRL_PROC_TIMEOUT_MS_N`
    pub ble_ll_ctrl_proc_timeout_ms: u32,
    /// `DEFAULT_BT_LE_MAX_CONNECTIONS`
    pub max_connections: u32,
    /// `DEFAULT_BT_NIMBLE_WHITELIST_SIZE`
    pub ble_whitelist_size: u32,
    /// `DEFAULT_BT_LE_ACL_BUF_SIZE`
    pub ble_acl_buf_size: u32,
    /// `DEFAULT_BT_LE_ACL_BUF_COUNT`
    pub ble_acl_buf_count: u32,
    /// `DEFAULT_BT_LE_HCI_EVT_BUF_SIZE`
    pub ble_hci_evt_buf_size: u32,
    /// `DEFAULT_BT_LE_MAX_EXT_ADV_INSTANCES`
    pub max_ext_adv_instances: u32,
    /// `DEFAULT_BT_LE_EXT_ADV_MAX_SIZE`
    pub ble_ext_adv_max_size: u32,
    /// `NIMBLE_LL_STACK_SIZE`
    pub controller_task_stack_size: u32,
    /// `ESP_TASK_BT_CONTROLLER_PRIO`
    pub controller_task_prio: u32,
    /// `RUN_QA_TEST`
    pub enable_qa_test: u32,
    /// `RUN_BQB_TEST`
    pub enable_bqb_test: u32,
    /// `DEFAULT_BT_LE_TX_CCA_ENABLED`
    pub enable_tx_cca: u32,
    /// `DEFAULT_BT_LE_CCA_RSSI_THRESH`
    pub cca_rssi_thresh_dbm: u32,
    /// `NIMBLE_SLEEP_ENABLE`
    pub sleep_en: u32,
    /// `DEFAULT_BT_LE_COEX_PHY_CODED_TX_RX_TLIM_EFF`
    pub coex_phy_coded_tx_rx_time_limit: u32,
    /// `NIMBLE_DISABLE_SCAN_BACKOFF`
    pub dis_scan_backoff: u32,
    /// `CONFIG_XTAL_FREQ`
    pub main_xtal_freq: u32,
    /// `DEFAULT_BT_LE_50_FEATURE_SUPPORT`
    pub csa2_select: u32,
    /// `DEFAULT_BT_LE_VHCI_ENABLED`
    pub vhci_enabled: u32,
    /// `DEFAULT_BT_LE_CTRL_CHECK_CONNECT_IND_ACCESS_ADDRESS`
    pub ble_aa_check: u32,
    /// `BT_LE_CTRL_LLCP_DISC_FLAG`
    pub ble_llcp_disc_flag: u32,
    /// `BT_CTRL_SCAN_BACKOFF_UPPERLIMITMAX`
    pub scan_backoff_upperlimitmax: u32,
    /// `CONFIG_MAGIC`
    pub config_magic: u32,
    /// `HCI_UART_EN`
    pub enable_uart_hci: u32,
    /// `DEFAULT_BT_LE_HCI_UART_PORT`
    pub ble_hci_uart_port: u32,
    /// `DEFAULT_BT_LE_HCI_UART_BAUD`
    pub ble_hci_uart_baud: u32,
    /// `DEFAULT_BT_LE_HCI_UART_DATA_BITS`
    pub ble_hci_uart_data_bits: u32,
    /// `DEFAULT_BT_LE_HCI_UART_STOP_BITS`
    pub ble_hci_uart_stop_bits: u32,
    /// `DEFAULT_BT_LE_HCI_UART_FLOW_CTRL`
    pub ble_hci_uart_flow_ctrl: u32,
    /// `DEFAULT_BT_LE_HCI_UART_PARITY`
    pub ble_hci_uart_uart_parity: u32,
    /// `CONFIG_ESP_DEFAULT_CPU_FREQ_MHZ`
    pub cpu_freq_mhz: u32,
    /// `DEFAULT_BT_LE_POWER_CONTROL_ENABLED`
    pub enable_pcl: u32,
    /// `DEFAULT_BT_LE_CTRL_CHAN_ASS_EN`
    pub ble_chan_ass_en: u32,
    /// `DEFAULT_BT_LE_CTRL_ADV_DATA_LENGTH_ZERO_AUX`
    pub ble_data_lenth_zero_aux: u32,
    /// `DEFAULT_BT_LE_PTR_CHECK_ENABLED`
    pub ptr_check_enabled: u32,
    /// `DEFAULT_BT_LE_CTRL_FAST_CONN_DATA_TX_EN`
    pub fast_conn_data_tx_en: u32,
    /// `BT_LL_CTRL_PRIO_LVL_CFG`
    pub priority_level_cfg: u32,
    /// `DEFAULT_BT_LE_CTRL_SLV_FAST_RX_CONN_DATA_EN`
    pub slv_fst_rx_lat_en: u32,
    /// `DEFAULT_BT_LE_CTRL_DL_ITVL_PHY_SYNC_EN`
    pub dl_itvl_phy_sync_en: u32,
    /// `DEFAULT_BT_SCAN_ALLOW_ENH_ADI_FILTER`
    pub scan_allow_adi_filter: u32,
    /// `CONFIG_BT_LE_EXT_ADV_RESERVED_MEMORY_COUNT`
    pub ext_adv_reserved_memory_count: u32,
    /// `CONFIG_BT_LE_CONN_RESERVED_MEMORY_COUNT`
    pub conn_reserved_memory_count: u32,
}

/// The UART HCI fields of the NimBLE controller configuration (ESP32-C2 only).
#[derive(Debug, Clone, Copy, PartialEq, Eq)]
pub struct NimbleUartHci {
    pub enable_uart_hci: u32,
    pub ble_hci_uart_port: u32,
    pub ble_hci_uart_baud: u32,
    pub ble_hci_uart_data_bits: u32,
    pub ble_hci_uart_stop_bits: u32,
    pub ble_hci_uart_flow_ctrl: u32,
    pub ble_hci_uart_uart_parity: u32,
}

/// The fields of the NimBLE controller configuration that the ESP32-C2 lacks.
#[derive(Debug, Clone, Copy, PartialEq, Eq)]
pub struct NimbleExtended {
    pub cpu_freq_mhz: u32,
    pub enable_pcl: u32,
    pub ble_chan_ass_en: u32,
    pub ble_data_lenth_zero_aux: u32,
    pub ptr_check_enabled: u32,
    pub fast_conn_data_tx_en: u32,
    pub ch39_txpwr: u32,
    pub adv_rsv_cnt: u32,
    pub conn_rsv_cnt: u32,
    pub priority_level_cfg: u32,
    pub slv_fst_rx_lat_en: u32,
    pub dl_itvl_phy_sync_en: u32,
    pub scan_allow_adi_filter: u32,
}

/// `esp_bt_controller_config_t` of the NimBLE chips.
#[derive(Debug, Clone, Copy, PartialEq, Eq)]
pub struct NimbleControllerConfig {
    pub config_version: u32,
    pub ble_ll_resolv_list_size: u32,
    pub ble_hci_evt_hi_buf_count: u32,
    pub ble_hci_evt_lo_buf_count: u32,
    pub ble_ll_sync_list_cnt: u32,
    pub ble_ll_sync_cnt: u32,
    pub ble_ll_rsp_dup_list_count: u32,
    pub ble_ll_adv_dup_list_count: u32,
    pub ble_ll_tx_pwr_dbm: u32,
    pub rtc_freq: u32,
    pub ble_ll_sca: u32,
    pub ble_ll_scan_phy_number: u32,
    pub ble_ll_conn_def_auth_pyld_tmo: u32,
    pub ble_ll_jitter_usecs: u32,
    pub ble_ll_sched_max_adv_pdu_usecs: u32,
    pub ble_ll_sched_direct_adv_max_usecs: u32,
    pub ble_ll_sched_adv_max_usecs: u32,
    pub ble_scan_rsp_data_max_len: u32,
    pub ble_ll_cfg_num_hci_cmd_pkts: u32,
    pub ble_ll_ctrl_proc_timeout_ms: u32,
    pub nimble_max_connections: u32,
    pub ble_whitelist_size: u32,
    pub ble_acl_buf_size: u32,
    pub ble_acl_buf_count: u32,
    pub ble_hci_evt_buf_size: u32,
    pub ble_multi_adv_instances: u32,
    pub ble_ext_adv_max_size: u32,
    pub controller_task_stack_size: u32,
    pub controller_task_prio: u32,
    pub controller_run_cpu: u32,
    pub enable_qa_test: u32,
    pub enable_bqb_test: u32,
    pub enable_tx_cca: u32,
    pub cca_rssi_thresh: u32,
    pub sleep_en: u32,
    pub coex_phy_coded_tx_rx_time_limit: u32,
    pub dis_scan_backoff: u32,
    pub ble_scan_classify_filter_enable: u32,
    pub main_xtal_freq: u32,
    pub version_num: u32,
    pub ignore_wl_for_direct_adv: u32,
    pub csa2_select: u32,
    pub vhci_enabled: u32,
    pub ble_aa_check: u32,
    pub ble_llcp_disc_flag: u32,
    pub scan_backoff_upperlimitmax: u32,
    pub config_magic: u32,
    /// Present on the ESP32-C2 only.
    pub uart_hci: Option<NimbleUartHci>,
    /// Absent on the ESP32-C2.
    pub extended: Option<NimbleExtended>,
}

/// The smaller of two values.
pub open spec fn spec_min_u32(a: u32, b: u32) -> u32 {
    if a <= b {
        a
    } else {
        b
    }
}

/// The smaller of two values.
pub fn min_u32(a: u32, b: u32) -> (r: u32)
    ensures
        r == spec_min_u32(a, b),
        r <= a,
        r <= b,
        r == a || r == b,
{
    if a <= b {
        a
    } else {
        b
    }
}

/// The NimBLE controller configuration for `chip`: settings copied; the
/// clear-channel threshold stored as `256 - threshold`; the reserved
/// advertising and connection counts as the smaller of the instance limit and
/// the reserved memory count; the scan classify filter on except on the
/// ESP32-C2; the chip revision recorded on the ESP32-C2 and ESP32-C6; the UART
/// HCI fields present on the ESP32-C2 only, and the later fields on the
/// others.
pub open spec fn spec_nimble_controller_config(s: NimbleControllerSettings, chip: NimbleChip, chip_revision: u32) -> NimbleControllerConfig {
    NimbleControllerConfig {
            config_version: s.config_version,
            ble_ll_resolv_list_size: s.ble_ll_resolv_list_size,
            ble_hci_evt_hi_buf_count: s.ble_hci_evt_hi_buf_count,
            ble_hci_evt_lo_buf_count: s.ble_hci_evt_lo_buf_count,
            ble_ll_sync_list_cnt: s.ble_ll_sync_list_cnt,
            ble_ll_sync_cnt: s.ble_ll_sync_cnt,
            ble_ll_rsp_dup_list_count: s.ll_dup_scan_list_count,
            ble_ll_adv_dup_list_count: s.ll_dup_scan_list_count,
            ble_ll_tx_pwr_dbm: s.ll_tx_pwr_dbm,
            rtc_freq: s.rtc_freq,
            ble_ll_sca: s.ble_ll_sca,
            ble_ll_scan_phy_number: s.ble_ll_scan_phy_number,
            ble_ll_conn_def_auth_pyld_tmo: s.ble_ll_conn_def_auth_pyld_tmo,
            ble_ll_jitter_usecs: s.ble_ll_jitter_usecs,
            ble_ll_sched_max_adv_pdu_usecs: s.ble_ll_sched_max_adv_pdu_usecs,
            ble_ll_sched_direct_adv_max_usecs: s.ble_ll_sched_direct_adv_max_usecs,
            ble_ll_sched_adv_max_usecs: s.ble_ll_sched_adv_max_usecs,
            ble_scan_rsp_data_max_len: s.ble_scan_rsp_data_max_len,
            ble_ll_cfg_num_hci_cmd_pkts: s.ble_ll_cfg_num_hci_cmd_pkts,
            ble_ll_ctrl_proc_timeout_ms: s.ble_ll_ctrl_proc_timeout_ms,
            nimble_max_connections: s.max_connections,
            ble_whitelist_size: s.ble_whitelist_size,
            ble_acl_buf_size: s.ble_acl_buf_size,
            ble_acl_buf_count: s.ble_acl_buf_count,
            ble_hci_evt_buf_size: s.ble_hci_evt_buf_size,
            ble_multi_adv_instances: s.max_ext_adv_instances,
            ble_ext_adv_max_size: s.ble_ext_adv_max_size,
            controller_task_stack_size: s.controller_task_stack_size,
            controller_task_prio: s.controller_task_prio,
            controller_run_cpu: 0,
            enable_qa_test: s.enable_qa_test,
            enable_bqb_test: s.enable_bqb_test,
            enable_tx_cca: s.enable_tx_cca,
            cca_rssi_thresh: (256 - s.cca_rssi_thresh_dbm) as u32,
            sleep_en: s.sleep_en,
            coex_phy_coded_tx_rx_time_limit: s.coex_phy_coded_tx_rx_time_limit,
            dis_scan_backoff: s.dis_scan_backoff,
            ble_scan_classify_filter_enable: if chip == NimbleChip::C2 { 0 } else { 1 },
            main_xtal_freq: s.main_xtal_freq,
            version_num: if chip == NimbleChip::C2 || chip == NimbleChip::C6 { chip_revision } else { 0 },
            ignore_wl_for_direct_adv: 0,
            csa2_select: s.csa2_select,
            vhci_enabled: s.vhci_enabled,
            ble_aa_check: s.ble_aa_check,
            ble_llcp_disc_flag: s.ble_llcp_disc_flag,
            scan_backoff_upperlimitmax: s.scan_backoff_upperlimitmax,
            config_magic: s.config_magic,
            uart_hci: if chip == NimbleChip::C2 {
                Some(NimbleUartHci {
                    enable_uart_hci: s.enable_uart_hci,
                    ble_hci_uart_port: s.ble_hci_uart_port,
                    ble_hci_uart_baud: s.ble_hci_uart_baud,
                    ble_hci_uart_data_bits: s.ble_hci_uart_data_bits,
                    ble_hci_uart_stop_bits: s.ble_hci_uart_stop_bits,
                    ble_hci_uart_flow_ctrl: s.ble_hci_uart_flow_ctrl,
                    ble_hci_uart_uart_parity: s.ble_hci_uart_uart_parity,
                })
            } else {
            None
        },
            extended: if chip == NimbleChip::C2 {
            None
        } else {
                Some(NimbleExtended {
                    cpu_freq_mhz: s.cpu_freq_mhz,
                    enable_pcl: s.enable_pcl,
                    ble_chan_ass_en: s.ble_chan_ass_en,
                    ble_data_lenth_zero_aux: s.ble_data_lenth_zero_aux,
                    ptr_check_enabled: s.ptr_check_enabled,
                    fast_conn_data_tx_en: s.fast_conn_data_tx_en,
                    ch39_txpwr: s.ll_tx_pwr_dbm,
                    adv_rsv_cnt: spec_min_u32(s.max_ext_adv_instances, s.ext_adv_reserved_memory_count),
                    conn_rsv_cnt: spec_min_u32(s.max_connections, s.conn_reserved_memory_count),
                    priority_level_cfg: s.priority_level_cfg,
                    slv_fst_rx_lat_en: s.slv_fst_rx_lat_en,
                    dl_itvl_phy_sync_en: s.dl_itvl_phy_sync_en,
                    scan_allow_adi_filter: s.scan_allow_adi_filter,
                })
            },
        }
}

/// Builds the NimBLE controller configuration for `chip`. `chip_revision` is
/// the revision ESP-IDF reports for the chip (used on the ESP32-C2 and -C6).
pub fn nimble_controller_config(s: &NimbleControllerSettings, chip: NimbleChip, chip_revision: u32) -> (r: NimbleControllerConfig)
    requires
        s.cca_rssi_thresh_dbm <= 256,
    ensures
        r == spec_nimble_controller_config(*s, chip, chip_revision),
        r.config_version == s.config_version,
        r.ble_ll_resolv_list_size == s.ble_ll_resolv_list_size,
        r.ble_hci_evt_hi_buf_count == s.ble_hci_evt_hi_buf_count,
        r.ble_hci_evt_lo_buf_count == s.ble_hci_evt_lo_buf_count,
        r.ble_ll_sync_list_cnt == s.ble_ll_sync_list_cnt,
        r.ble_ll_sync_cnt == s.ble_ll_sync_cnt,
        r.ble_ll_rsp_dup_list_count == s.ll_dup_scan_list_count,
        r.ble_ll_adv_dup_list_count == s.ll_dup_scan_list_count,
        r.ble_ll_tx_pwr_dbm == s.ll_tx_pwr_dbm,
        r.rtc_freq == s.rtc_freq,
        r.ble_ll_sca == s.ble_ll_sca,
        r.ble_ll_scan_phy_number == s.ble_ll_scan_phy_number,
        r.ble_ll_conn_def_auth_pyld_tmo == s.ble_ll_conn_def_auth_pyld_tmo,
        r.ble_ll_jitter_usecs == s.ble_ll_jitter_usecs,
        r.ble_ll_sched_max_adv_pdu_usecs == s.ble_ll_sched_max_adv_pdu_usecs,
        r.ble_ll_sched_direct_adv_max_usecs == s.ble_ll_sched_direct_adv_max_usecs,
        r.ble_ll_sched_adv_max_usecs == s.ble_ll_sched_adv_max_usecs,
        r.ble_scan_rsp_data_max_len == s.ble_scan_rsp_data_max_len,
        r.ble_ll_cfg_num_hci_cmd_pkts == s.ble_ll_cfg_num_hci_cmd_pkts,
        r.ble_ll_ctrl_proc_timeout_ms == s.ble_ll_ctrl_proc_timeout_ms,
        r.nimble_max_connections == s.max_connections,
        r.ble_whitelist_size == s.ble_whitelist_size,
        r.ble_acl_buf_size == s.ble_acl_buf_size,
        r.ble_acl_buf_count == s.ble_acl_buf_count,
        r.ble_hci_evt_buf_size == s.ble_hci_evt_buf_size,
        r.ble_multi_adv_instances == s.max_ext_adv_instances,
        r.ble_ext_adv_max_size == s.ble_ext_adv_max_size,
        r.controller_task_stack_size == s.controller_task_stack_size,
        r.controller_task_prio == s.controller_task_prio,
        r.controller_run_cpu == 0,
        r.enable_qa_test == s.enable_qa_test,
        r.enable_bqb_test == s.enable_bqb_test,
        r.enable_tx_cca == s.enable_tx_cca,
        r.cca_rssi_thresh == 256 - s.cca_rssi_thresh_dbm,
        r.sleep_en == s.sleep_en,
        r.coex_phy_coded_tx_rx_time_limit == s.coex_phy_coded_tx_rx_time_limit,
        r.dis_scan_backoff == s.dis_scan_backoff,
        r.main_xtal_freq == s.main_xtal_freq,
        r.ignore_wl_for_direct_adv == 0,
        r.csa2_select == s.csa2_select,
        r.vhci_enabled == s.vhci_enabled,
        r.ble_aa_check == s.ble_aa_check,
        r.ble_llcp_disc_flag == s.ble_llcp_disc_flag,
        r.scan_backoff_upperlimitmax == s.scan_backoff_upperlimitmax,
        r.config_magic == s.config_magic,
        (chip == NimbleChip::C2 ==> r.ble_scan_classify_filter_enable == 0),
        (chip != NimbleChip::C2 ==> r.ble_scan_classify_filter_enable == 1),
        (chip == NimbleChip::C2 || chip == NimbleChip::C6 ==> r.version_num == chip_revision),
        (chip != NimbleChip::C2 && chip != NimbleChip::C6 ==> r.version_num == 0),
        r.uart_hci is Some <==> chip == NimbleChip::C2,
        r.extended is Some <==> chip != NimbleChip::C2,
        r.uart_hci matches Some(u) ==> {
            &&& u.enable_uart_hci == s.enable_uart_hci
            &&& u.ble_hci_uart_port == s.ble_hci_uart_port
            &&& u.ble_hci_uart_baud == s.ble_hci_uart_baud
            &&& u.ble_hci_uart_data_bits == s.ble_hci_uart_data_bits
            &&& u.ble_hci_uart_stop_bits == s.ble_hci_uart_stop_bits
            &&& u.ble_hci_uart_flow_ctrl == s.ble_hci_uart_flow_ctrl
            &&& u.ble_hci_uart_uart_parity == s.ble_hci_uart_uart_parity
        },
        r.extended matches Some(x) ==> {
            &&& x.cpu_freq_mhz == s.cpu_freq_mhz
            &&& x.enable_pcl == s.enable_pcl
            &&& x.ble_chan_ass_en == s.ble_chan_ass_en
            &&& x.ble_data_lenth_zero_aux == s.ble_data_lenth_zero_aux
            &&& x.ptr_check_enabled == s.ptr_check_enabled
            &&& x.fast_conn_data_tx_en == s.fast_conn_data_tx_en
            &&& x.ch39_txpwr == s.ll_tx_pwr_dbm
            &&& x.priority_level_cfg == s.priority_level_cfg
            &&& x.slv_fst_rx_lat_en == s.slv_fst_rx_lat_en
            &&& x.dl_itvl_phy_sync_en == s.dl_itvl_phy_sync_en
            &&& x.scan_allow_adi_filter == s.scan_allow_adi_filter
            &&& x.adv_rsv_cnt <= s.max_ext_adv_instances
            &&& x.adv_rsv_cnt <= s.ext_adv_reserved_memory_count
            &&& (x.adv_rsv_cnt == s.max_ext_adv_instances || x.adv_rsv_cnt == s.ext_adv_reserved_memory_count)
            &&& x.conn_rsv_cnt <= s.max_connections
            &&& x.conn_rsv_cnt <= s.conn_reserved_memory_count
            &&& (x.conn_rsv_cnt == s.max_connections || x.conn_rsv_cnt == s.conn_reserved_memory_count)
        },
{
    NimbleControllerConfig {
            config_version: s.config_version,
            ble_ll_resolv_list_size: s.ble_ll_resolv_list_size,
            ble_hci_evt_hi_buf_count: s.ble_hci_evt_hi_buf_count,
            ble_hci_evt_lo_buf_count: s.ble_hci_evt_lo_buf_count,
            ble_ll_sync_list_cnt: s.ble_ll_sync_list_cnt,
            ble_ll_sync_cnt: s.ble_ll_sync_cnt,
            ble_ll_rsp_dup_list_count: s.ll_dup_scan_list_count,
            ble_ll_adv_dup_list_count: s.ll_dup_scan_list_count,
            ble_ll_tx_pwr_dbm: s.ll_tx_pwr_dbm,
            rtc_freq: s.rtc_freq,
            ble_ll_sca: s.ble_ll_sca,
            ble_ll_scan_phy_number: s.ble_ll_scan_phy_number,
            ble_ll_conn_def_auth_pyld_tmo: s.ble_ll_conn_def_auth_pyld_tmo,
            ble_ll_jitter_usecs: s.ble_ll_jitter_usecs,
            ble_ll_sched_max_adv_pdu_usecs: s.ble_ll_sched_max_adv_pdu_usecs,
            ble_ll_sched_direct_adv_max_usecs: s.ble_ll_sched_direct_adv_max_usecs,
            ble_ll_sched_adv_max_usecs: s.ble_ll_sched_adv_max_usecs,
            ble_scan_rsp_data_max_len: s.ble_scan_rsp_data_max_len,
            ble_ll_cfg_num_hci_cmd_pkts: s.ble_ll_cfg_num_hci_cmd_pkts,
            ble_ll_ctrl_proc_timeout_ms: s.ble_ll_ctrl_proc_timeout_ms,
            nimble_max_connections: s.max_connections,
            ble_whitelist_size: s.ble_whitelist_size,
            ble_acl_buf_size: s.ble_acl_buf_size,
            ble_acl_buf_count: s.ble_acl_buf_count,
            ble_hci_evt_buf_size: s.ble_hci_evt_buf_size,
            ble_multi_adv_instances: s.max_ext_adv_instances,
            ble_ext_adv_max_size: s.ble_ext_adv_max_size,
            controller_task_stack_size: s.controller_task_stack_size,
            controller_task_prio: s.controller_task_prio,
            controller_run_cpu: 0,
            enable_qa_test: s.enable_qa_test,
            enable_bqb_test: s.enable_bqb_test,
            enable_tx_cca: s.enable_tx_cca,
            cca_rssi_thresh: 256 - s.cca_rssi_thresh_dbm,
            sleep_en: s.sleep_en,
            coex_phy_coded_tx_rx_time_limit: s.coex_phy_coded_tx_rx_time_limit,
            dis_scan_backoff: s.dis_scan_backoff,
            ble_scan_classify_filter_enable: if chip == NimbleChip::C2 { 0 } else { 1 },
            main_xtal_freq: s.main_xtal_freq,
            version_num: if chip == NimbleChip::C2 || chip == NimbleChip::C6 { chip_revision } else { 0 },
            ignore_wl_for_direct_adv: 0,
            csa2_select: s.csa2_select,
            vhci_enabled: s.vhci_enabled,
            ble_aa_check: s.ble_aa_check,
            ble_llcp_disc_flag: s.ble_llcp_disc_flag,
            scan_backoff_upperlimitmax: s.scan_backoff_upperlimitmax,
            config_magic: s.config_magic,
            uart_hci: if chip == NimbleChip::C2 {
                Some(NimbleUartHci {
                    enable_uart_hci: s.enable_uart_hci,
                    ble_hci_uart_port: s.ble_hci_uart_port,
                    ble_hci_uart_baud: s.ble_hci_uart_baud,
                    ble_hci_uart_data_bits: s.ble_hci_uart_data_bits,
                    ble_hci_uart_stop_bits: s.ble_hci_uart_stop_bits,
                    ble_hci_uart_flow_ctrl: s.ble_hci_uart_flow_ctrl,
                    ble_hci_uart_uart_parity: s.ble_hci_uart_uart_parity,
                })
            } else {
            None
        },
            extended: if chip == NimbleChip::C2 {
            None
        } else {
                Some(NimbleExtended {
                    cpu_freq_mhz: s.cpu_freq_mhz,
                    enable_pcl: s.enable_pcl,
                    ble_chan_ass_en: s.ble_chan_ass_en,
                    ble_data_lenth_zero_aux: s.ble_data_lenth_zero_aux,
                    ptr_check_enabled: s.ptr_check_enabled,
                    fast_conn_data_tx_en: s.fast_conn_data_tx_en,
                    ch39_txpwr: s.ll_tx_pwr_dbm,
                    adv_rsv_cnt: min_u32(s.max_ext_adv_instances, s.ext_adv_reserved_memory_count),
                    conn_rsv_cnt: min_u32(s.max_connections, s.conn_reserved_memory_count),
                    priority_level_cfg: s.priority_level_cfg,
                    slv_fst_rx_lat_en: s.slv_fst_rx_lat_en,
                    dl_itvl_phy_sync_en: s.dl_itvl_phy_sync_en,
                    scan_allow_adi_filter: s.scan_allow_adi_filter,
                })
            },
        }
}

} // verus!
