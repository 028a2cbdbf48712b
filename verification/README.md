# presence_detector

A verified library for an HC-SR501 PIR presence sensor that reports to an
MQTT broker (and from there to Node-RED or Home Assistant).

- `src/` is the library, verified with Verus: the sensor configuration
  (`config`), decimal reading and writing (`decimal`), JSON payloads
  (`json`), MQTT client settings and messages (`mqtt`), pin names (`pins`)
  and presence change tracking (`presence`).
- `app/` is the program around it: environment variables, GPIO or FTDI pin
  access, the MQTT connection and the polling or interrupt loop. Run it with
  `--dev` for the development configuration on an FT232H board.
- `tests/` exercises the library on concrete values.
