# aiseg2_forwarder

Reads energy and climate readings from a Panasonic AiSEG2 controller and writes them to
InfluxDB 2.

The library under `src/` is verified with Verus:

- `circuit_breaker`, `collector`: the circuit breaker state machine around each collector, with
  its laws (what opens, blocks, half-opens, closes and reopens the circuit).
- `aiseg`: the AiSEG2 side. `html` reaches the `scraper` crate through a few trusted functions;
  `helper`, `html_parsing` and `parser_adapters` read text, decimal numbers, digit displays,
  consumption entries, generation sources and climate places out of pages (`climate_metric_collector`
  reads a place strictly, `climate_parser` with typed errors); `pagination` decides
  which page to fetch next and when to stop, with the law of a whole run; `query_builder` and `pages` build the request paths;
  `metrics` builds the power metrics and climate readings.
- `model`: metric types, their labels, and merging metrics that describe the same component.
- `config`, `error`, `text`, `test_utils`: configuration values and defaults, error types with
  their messages, decimal rendering, and builders of test pages and configurations.

Clock readings enter the circuit breaker as milliseconds handed in by the caller. Values that are
floating point in InfluxDB (kW, kWh, °C) leave the library as decimal texts or as tenths.

`app/` is the program around the library: reading the environment, HTTP with digest
authentication, writing to InfluxDB, the asynchronous collection loops, and the conversions to
floating point.
