/*
 * The part of RAIL's headers that only a C compiler can read: macros, and calls that
 * take structs. To be compiled together with the RAIL SDK and linked to the program.
 */
#include <stddef.h>
#include <stdint.h>

#include "rail.h"
#include "rail_config.h"
#include "sl_rail.h"
#include "sl_rail_util_pa_config.h"
#include "sl_rail_util_pa_conversions_efr32.h"

const uint32_t efr32_rail_status_no_error = SL_RAIL_STATUS_NO_ERROR;
const uint32_t efr32_rail_status_suspended = SL_RAIL_STATUS_SUSPENDED;
const uint32_t efr32_rail_status_invalid_call = SL_RAIL_STATUS_INVALID_CALL;
const uint32_t efr32_rail_status_invalid_parameter = SL_RAIL_STATUS_INVALID_PARAMETER;
const uint32_t efr32_rail_status_invalid_state = SL_RAIL_STATUS_INVALID_STATE;
const uint32_t efr32_rail_status_sched_error = SL_RAIL_STATUS_SCHED_ERROR;
const uint64_t efr32_rail_events_all = (uint64_t) SL_RAIL_EVENTS_ALL;
const uint32_t efr32_rail_event_tx_packet_sent = SL_RAIL_EVENT_TX_PACKET_SENT;
const uint32_t efr32_rail_event_rx_packet_received = SL_RAIL_EVENT_RX_PACKET_RECEIVED;
const uint32_t efr32_rail_event_rx_frame_error = SL_RAIL_EVENT_RX_FRAME_ERROR;
const uint32_t efr32_rail_builtin_rx_packet_queue_entries =
    SL_RAIL_BUILTIN_RX_PACKET_QUEUE_ENTRIES;
const uint32_t efr32_rail_builtin_rx_fifo_bytes = SL_RAIL_BUILTIN_RX_FIFO_BYTES;
const uint32_t efr32_rail_tx_power_mode_2p4_ghz_lp = SL_RAIL_TX_POWER_MODE_2P4_GHZ_LP;
const uint32_t efr32_rail_tx_power_mode_2p4_ghz_hp = SL_RAIL_TX_POWER_MODE_2P4_GHZ_HP;
const uint32_t efr32_rail_pa_voltage_mv = SL_RAIL_UTIL_PA_VOLTAGE_MV;
const uint32_t efr32_rail_pa_ramp_time_us = SL_RAIL_UTIL_PA_RAMP_TIME_US;
const uint32_t efr32_rail_rf_state_rx = SL_RAIL_RF_STATE_RX;
const uint32_t efr32_rail_rf_state_idle = SL_RAIL_RF_STATE_IDLE;
const uint32_t efr32_rail_idle = SL_RAIL_IDLE;
const uint32_t efr32_rail_tx_options_default = SL_RAIL_TX_OPTIONS_DEFAULT;

typedef struct {
  void (*events_callback)(sl_rail_handle_t handle, sl_rail_events_t events);
  void (*init_callback)(sl_rail_handle_t handle);
  void *opaque_handle1;
  void *opaque_handle2;
  uint32_t opaque_value;
  uint16_t rx_packet_queue_entries;
  uint16_t rx_fifo_bytes;
  uint16_t tx_fifo_bytes;
  uint16_t tx_fifo_init_bytes;
  uint32_t *tx_fifo_buffer;
} efr32_rail_config_t;

uint32_t efr32_rail_init(sl_rail_handle_t *handle, const efr32_rail_config_t *config)
{
  sl_rail_config_t rail_config = {
    .events_callback = config->events_callback,
    .p_opaque_handle1 = config->opaque_handle1,
    .p_opaque_handle2 = config->opaque_handle2,
    .opaque_value = { config->opaque_value },
    .rx_packet_queue_entries = config->rx_packet_queue_entries,
    .rx_fifo_bytes = config->rx_fifo_bytes,
    .tx_fifo_bytes = config->tx_fifo_bytes,
    .tx_fifo_init_bytes = config->tx_fifo_init_bytes,
    .p_rx_packet_queue = sl_rail_builtin_rx_packet_queue_ptr,
    .p_rx_fifo_buffer = sl_rail_builtin_rx_fifo_ptr,
    .p_tx_fifo_buffer = config->tx_fifo_buffer,
  };
  return sl_rail_init(handle, &rail_config, config->init_callback);
}

uint32_t efr32_rail_config_channels(sl_rail_handle_t handle)
{
  return sl_rail_config_channels(
      handle,
      (const sl_rail_channel_config_t *) &Protocol_Configuration_channelConfig,
      &sl_rail_util_pa_on_channel_config_change);
}

uint32_t efr32_rail_config_tx_power(
    sl_rail_handle_t handle, uint8_t mode, uint16_t voltage, uint16_t ramp_time)
{
  RAIL_TxPowerConfig_t config = { .mode = mode, .voltage = voltage, .rampTime = ramp_time };
  return RAIL_ConfigTxPower(handle, &config);
}

uint32_t efr32_rail_set_rx_transitions(sl_rail_handle_t handle, uint8_t success, uint8_t error)
{
  sl_rail_state_transitions_t transitions = { .success = success, .error = error };
  return sl_rail_set_rx_transitions(handle, &transitions);
}

uint32_t efr32_rail_set_tx_transitions(sl_rail_handle_t handle, uint8_t success, uint8_t error)
{
  sl_rail_state_transitions_t transitions = { .success = success, .error = error };
  return sl_rail_set_tx_transitions(handle, &transitions);
}

void *efr32_rail_opaque_handle1(sl_rail_handle_t handle)
{
  return sl_rail_get_config(handle)->p_opaque_handle1;
}

_Static_assert(sizeof(sl_rail_rx_packet_info_t) <= 64, "room for the packet info is too small");

const void *efr32_rail_get_rx_packet_info(
    sl_rail_handle_t handle, const void *packet, sl_rail_rx_packet_info_t *info,
    uint16_t *packet_bytes)
{
  const void *found =
      sl_rail_get_rx_packet_info(handle, (sl_rail_rx_packet_handle_t) packet, info);
  *packet_bytes = info->packet_bytes;
  return found;
}

uint32_t efr32_rail_copy_rx_packet(
    sl_rail_handle_t handle, uint8_t *target, const sl_rail_rx_packet_info_t *info)
{
  return sl_rail_copy_rx_packet(handle, target, info);
}
