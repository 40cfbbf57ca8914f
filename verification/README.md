# esp_bt

Bluetooth support for ESP-IDF, verified with Verus.

The library (`src/`) holds the logic: Bluetooth device addresses and UUIDs,
status codes, operating modes, profile ownership, the controller
configuration and the order of the bring-up calls, the one-time release of
Bluetooth memory, and the receive queue and packet handling of the virtual
HCI (VHCI) transport. Its functions carry contracts that Verus proves,
except four small trusted wrappers around outside calls (`String::push`,
`Vec::try_reserve_exact`, `VecDeque::try_reserve` and `bt-hci`'s packet
parser), whose contracts are stated from their documentation; the laws of the library (exclusive ownership, packets read in
arrival order, errors reported first, a bring-up stopping at its first
failure, status codes and UUID bytes determining their values) are public
proof functions next to the code they speak of.

The controller configuration a firmware was built with (`ControllerMode`:
BLE only, Classic only, or dual mode) is an argument of the functions that
depend on it: the mode types' `mode`, the bring-ups and the memory release.
`app/` reads it from the ESP-IDF configuration of the build.

`app/` is the glue to ESP-IDF itself: the FFI calls the library asks for, the
program-wide state shared with ESP-IDF's callbacks, and the impls of
`bt-hci`'s `Transport` and `embedded-io`'s `Error`.

Layout:

- `src/esp_error.rs`: `esp_err_t` codes and `EspError`.
- `src/text.rs`: hexadecimal and decimal text.
- `src/bt.rs`, `src/bt/`: addresses, UUIDs, modes, status codes, profile
  ownership (`singleton`), memory release (`memory`), the driver (`driver`).
- `src/bt_controller.rs`, `src/bt_controller/trouble.rs`: the bare
  controller and the VHCI transport.
- `src/private/`: controller configuration and bring-up, C strings.
