# wazi

A small language that compiles to WebAssembly, written in Verus.

```
extern env/print_int
func print_int(value: Int)

func main() {
    local result = add(12, 28)
    print_int(result)
}

func add(a: Int, b: Int): Int {
    return a + b
}
```

The compiler is a chain of verified stages, each a function whose result is
fixed by a contract over a mathematical model of its input:

- `lexer::lex`: characters to tokens (`lexer::spec_lex`);
- `parser::parse`: tokens to a syntax tree (`parser::grammar::spec_parse`);
- `sema::check`: name resolution and type checking to a typed tree
  (`sema::rules::spec_check`);
- `lower::lower`: typed tree to the intermediate representation
  (`lower::rules::spec_lower`), on programs that `lower::lowerable` accepts;
- `codegen::emit`: the representation to module bytes built with
  `wasm_encoder` (`codegen::rules::spec_emit`), on modules that
  `codegen::emittable` accepts.

`compile::compile_source` chains them on the text of a program
(`compile::spec_compile`), and says which stage refused it when one does.

`src/` is the verified library; `app/` is the command line (`wazi build FILE`,
`wazi run FILE`) that reads files, prints errors and serves the result.
