# frida

Access to Frida devices, in two parts.

`src/` is a Verus library. It decides what is asked of the native Frida library
and what is made of its answers: which processes may be sent input, how native
errors are reported, how system parameters and processes are collected, and which
handler the output of a spawned process goes to. It makes no native calls: an
operation yields the call to make as a value, and takes what came back of it.

- `device`, `calls`: devices, and the calls that their operations consist of
- `handlers`: the output handlers that all devices share
- `parameters`, `process`: system parameters, processes and sessions
- `pid`, `device_type`, `scope`, `spawn`, `error`, `text`: the values in between
- `laws`, `handler_laws`: what is proved of the library as a whole

`app/` makes the native calls, through `frida-sys`.
