# veight

High-level asynchronous V8 bindings for Python. The logic of the bindings is a verified
library; the engine, the interpreter and the event loop stand around it.

```python
import asyncio
from veight import Isolates, Value

SCRIPT = """
(async () => {
    return await hello("world");
})()
"""


async def hello(arg: Value) -> str:
    return arg.to_str()


async def main():
    isolates = Isolates()
    isolate = await isolates.create_isolate()

    isolate.add_function("hello", hello)

    res = await isolate.run(SCRIPT)
    print(res)


asyncio.run(main())
```

## Layout

- `src/` is the library, with its contracts and proofs.
  - `bridging/`: values, `undefined` and errors on their way from Javascript to Python.
  - `isolates/`: how isolates are created, asked and closed; the task that runs an isolate
    (`isolate_task`), the task that runs Python functions (`python_task`), and what holds of
    them from start to end (`creation_history`, `isolate_history`, `python_history`,
    `function_calls`).
  - `transmit`: the requests that pass between the two sides, and the state of an isolate.
  - `stack`: what added functions refer to.
  - `channels`: the tokio channels, and what is relied on of them.
- `tests/` runs the library, with the outside crates linked.
- `app/` is the Python module: the classes, the loops that carry out what the tasks ask for,
  and the calls into V8.

## What is proved

Both tasks are state machines: a function takes an event and returns the next thing to do.
Among other things it is proved that every script is answered for exactly once and in order,
that the microtasks run exactly after scripts that did not throw, that an isolate that closes
takes no request any more, closes the tracker of its tasks before it waits for them and drops
what its functions refer to at the end, that two isolates never share a state, that a call
from a script reaches the Python function that was added last under its name, that a value
gives its handle away at most once and every conversion has it freed, and that a session
creates at most one isolate and closes it when it is left.
