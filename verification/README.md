# apf_engine

A BPMN workflow engine library, verified with Verus.

- `src/` holds the verified library: the BPMN process model and its
  validation rules, the records a running process keeps and derives, the
  decisions taken while a process runs, the task and process-definition
  queries as SQL text with numbered parameters, and the engine's error values.
- `tests/` runs the library on concrete values.
- `app/` holds what talks to the outside world: configuration loading, the
  PostgreSQL connection pool, the data-access objects that run the statements,
  and the steps that write to the store around the library's decisions.
