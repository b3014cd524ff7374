# maa_core

The core commands of a front end for MaaFramework: initialisation and version
check, search for devices, instances, controllers, resources, tasks and
screenshots.

`src/` is a Verus library. It decides what a command does; each decision has a
contract over a model of the state (`state.rs`), and `laws.rs` proves what holds
of the commands together. A command that has to call the framework is a step
function: it takes what came of the last action and returns the next one.

`app/` carries the actions out: it holds the framework's handles, talks to the
front end, and loops over the steps.

| module | what it is about |
| --- | --- |
| `table` | an association table with distinct keys |
| `config` | configurations of controllers, the keys of the pool |
| `state` | the instances, the pool, synthetic connection ids |
| `connect` | plans for controllers, reuse from the pool, the steps of a connection |
| `library` | locating and loading the framework's library |
| `version` | the lowest version that is supported |
| `devices` | devices and windows, and the filters on windows |
| `resource` | making resources and loading bundles |
| `task` | running, asking after, overriding and stopping tasks |
| `screen` | connections and screenshots |
| `text` | decimal numbers, and strings and paths of the standard library |
| `laws` | what holds of the commands together |
