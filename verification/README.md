# cef

The verified core of a Rust binding to the Chromium Embedded Framework (CEF).

`src/` holds the part of the binding that decides things: the value types that
cross the C boundary and their conversions to and from CEF's raw records
(settings, cookies, key and mouse events, popup features, screen information,
audio parameters, cursor types, file dialog modes, transition types, menu
accelerators and colors, DOM, key event and media router codes), the
conversion of CEF calendar times to UTC milliseconds through `chrono`, the
grouping of string multimaps, and the routing of
log records to CEF's logging. Every function there carries a contract that
Verus proves, and the round-trip laws of the conversions are stated as proof
functions next to them.

`app/` holds what talks to the outside: the `log` crate integration that calls
`cef_log`, the conversions between CEF times and `chrono`'s `DateTime`, process-wide id counters and
the values that carry floating-point numbers.

`tests/` exercises the library on concrete values.
