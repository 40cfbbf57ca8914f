use esp_bt::private::controller_config::{
    c3s3_controller_config, min_u32, nimble_controller_config, C3S3ControllerSettings, NimbleChip,
    NimbleControllerSettings,
};

fn nimble_settings() -> NimbleControllerSettings {
    NimbleControllerSettings {
        config_version: 1,
        ble_ll_resolv_list_size: 2,
        ble_hci_evt_hi_buf_count: 3,
        ble_hci_evt_lo_buf_count: 4,
        ble_ll_sync_list_cnt: 5,
        ble_ll_sync_cnt: 6,
        ll_dup_scan_list_count: 7,
        ll_tx_pwr_dbm: 9,
        rtc_freq: 9,
        ble_ll_sca: 10,
        ble_ll_scan_phy_number: 11,
        ble_ll_conn_def_auth_pyld_tmo: 12,
        ble_ll_jitter_usecs: 13,
        ble_ll_sched_max_adv_pdu_usecs: 14,
        ble_ll_sched_direct_adv_max_usecs: 15,
        ble_ll_sched_adv_max_usecs: 16,
        ble_scan_rsp_data_max_len: 17,
        ble_ll_cfg_num_hci_cmd_pkts: 18,
        ble_ll_ctrl_proc_timeout_ms: 19,
        max_connections: 8,
        ble_whitelist_size: 21,
        ble_acl_buf_size: 22,
        ble_acl_buf_count: 23,
        ble_hci_evt_buf_size: 24,
        max_ext_adv_instances: 2,
        ble_ext_adv_max_size: 26,
        controller_task_stack_size: 27,
        controller_task_prio: 28,
        enable_qa_test: 29,
        enable_bqb_test: 30,
        enable_tx_cca: 31,
        cca_rssi_thresh_dbm: 60,
        sleep_en: 33,
        coex_phy_coded_tx_rx_time_limit: 34,
        dis_scan_backoff: 35,
        main_xtal_freq: 36,
        csa2_select: 37,
        vhci_enabled: 38,
        ble_aa_check: 39,
        ble_llcp_disc_flag: 40,
        scan_backoff_upperlimitmax: 41,
        config_magic: 42,
        enable_uart_hci: 43,
        ble_hci_uart_port: 44,
        ble_hci_uart_baud: 45,
        ble_hci_uart_data_bits: 46,
        ble_hci_uart_stop_bits: 47,
        ble_hci_uart_flow_ctrl: 48,
        ble_hci_uart_uart_parity: 49,
        cpu_freq_mhz: 50,
        enable_pcl: 51,
        ble_chan_ass_en: 52,
        ble_data_lenth_zero_aux: 53,
        ptr_check_enabled: 54,
        fast_conn_data_tx_en: 55,
        priority_level_cfg: 56,
        slv_fst_rx_lat_en: 57,
        dl_itvl_phy_sync_en: 58,
        scan_allow_adi_filter: 59,
        ext_adv_reserved_memory_count: 5,
        conn_reserved_memory_count: 3,
    }
}

fn c3s3_settings() -> C3S3ControllerSettings {
    C3S3ControllerSettings {
        magic: 100,
        version: 101,
        controller_task_stack_size: 102,
        controller_task_prio: 103,
        controller_task_run_cpu: 104,
        bluetooth_mode: 105,
        ble_max_act: 106,
        sleep_mode: 107,
        sleep_clock: 108,
        ble_st_acl_tx_buf_nb: 109,
        ble_hw_cca_check: 110,
        ble_adv_dup_filt_max: 111,
        ce_len_type: 112,
        hci_tl_type: 113,
        txant_dft: 114,
        rxant_dft: 115,
        txpwr_dft: 116,
        cfg_mask: 117,
        scan_duplicate_mode: 118,
        scan_duplicate_type: 119,
        normal_adv_size: 120,
        mesh_adv_size: 121,
        coex_phy_coded_tx_rx_time_limit: 122,
        hw_target_code: 123,
        slave_ce_len_min: 124,
        hw_recorrect_en: 125,
        cca_thresh: 126,
        scan_backoff_upperlimitmax: 127,
        dup_list_refresh_period: 128,
        ble_50_feat_supp: 2,
        ble_cca_mode: 130,
        ble_data_lenth_zero_aux: 131,
        ble_chan_ass_en: 132,
        ble_ping_en: 133,
        ble_llcp_disc_flag: 134,
        run_in_flash: 2,
        dtm_en: 0,
        enc_en: 1,
        qa_test: 2,
        connect_en: 0,
        scan_en: 1,
        ble_aa_check: 2,
        ble_log_mode_en: 142,
        ble_log_level: 143,
        adv_en: 2,
    }
}

#[test]
fn nimble_config_derived_fields() {
    let c = nimble_controller_config(&nimble_settings(), NimbleChip::C6, 3);
    assert_eq!(c.cca_rssi_thresh, 256 - 60);
    assert_eq!(c.ble_scan_classify_filter_enable, 1);
    assert_eq!(c.version_num, 3);
    assert_eq!(c.controller_run_cpu, 0);
    assert_eq!(c.ignore_wl_for_direct_adv, 0);
    assert_eq!(c.ble_ll_rsp_dup_list_count, c.ble_ll_adv_dup_list_count);
    assert_eq!(c.nimble_max_connections, 8);
    assert_eq!(c.ble_multi_adv_instances, 2);
    assert!(c.uart_hci.is_none());
    let ext = c.extended.unwrap();
    assert_eq!(ext.adv_rsv_cnt, 2);
    assert_eq!(ext.conn_rsv_cnt, 3);
    assert_eq!(ext.ch39_txpwr, 9);
    assert_eq!(c.ble_ll_tx_pwr_dbm, 9);
}

#[test]
fn nimble_config_per_chip() {
    let c2 = nimble_controller_config(&nimble_settings(), NimbleChip::C2, 7);
    assert_eq!(c2.ble_scan_classify_filter_enable, 0);
    assert_eq!(c2.version_num, 7);
    assert!(c2.extended.is_none());
    let uart = c2.uart_hci.unwrap();
    assert_eq!(uart.ble_hci_uart_port, nimble_settings().ble_hci_uart_port);
    let h2 = nimble_controller_config(&nimble_settings(), NimbleChip::H2, 7);
    assert_eq!(h2.version_num, 0);
    assert!(h2.uart_hci.is_none());
    assert!(h2.extended.is_some());
    let c5 = nimble_controller_config(&nimble_settings(), NimbleChip::C5, 7);
    assert_eq!(c5.version_num, 0);
    assert_eq!(c5.ble_scan_classify_filter_enable, 1);
}

#[test]
fn c3s3_config_copies_settings() {
    let s = c3s3_settings();
    let c = c3s3_controller_config(&s);
    assert_eq!(c.magic, s.magic);
    assert_eq!(c.bluetooth_mode, s.bluetooth_mode);
    assert_eq!(c.cfg_mask, s.cfg_mask);
    assert_eq!(c.ble_log_mode_en, s.ble_log_mode_en);
    assert!(!c.coex_param_en);
    assert!(!c.coex_use_hooks);
    assert_eq!(c.ble_50_feat_supp, s.ble_50_feat_supp != 0);
    assert_eq!(c.adv_en, s.adv_en != 0);
    assert_eq!(c.run_in_flash, s.run_in_flash != 0);
}

#[test]
fn min_of_two() {
    assert_eq!(min_u32(3, 5), 3);
    assert_eq!(min_u32(5, 3), 3);
    assert_eq!(min_u32(4, 4), 4);
}
