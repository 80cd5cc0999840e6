# wry_android

The Android side of a webview library: which webviews and activities exist, what is asked of Java
for each message, and what is kept and forgotten along the way.

The library in `src/` holds the decisions and is verified with Verus. It never calls Java itself.
For each message `MainPipe::recv` gives the steps to be performed; the caller performs them one at
a time and hands the outcomes to `Run::advance`; `MainPipe::finish` then registers or forgets what
the message is about and says what is left to be sent or run.

- `registries`, `activity`, `registry`: all that is registered
- `message`, `main_pipe`, `run`, `action`, `plan`, `java`: handling the messages
- `inner_webview`, `attributes`, `setup`, `request`, `wake`: the calls from outside
- `text`, `cookies`, `headers`, `color`, `counter`, `work_around`, `error`: what they are made of
- `laws`, `plan_laws`, `supply`: what holds of the whole
- `outside`: the functions of other crates, with what they are taken to do

`app/` is ordinary Rust around the library: JNI, the channel and the pipe, and the looper of the
device. Floating point stays there too.
