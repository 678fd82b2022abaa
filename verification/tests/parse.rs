use luasyn::element::{Chunk, Exp};
use luasyn::parse::Parseable;
use luasyn::tokenize::TokenStream;

fn exp_ok(l: &str) {
    let mut tok = TokenStream::parse(l).expect(&format!("token stream parsing failed: {}", l));
    let ex = Exp::parse(&mut tok).expect(&format!("test failed: {}", l));
    println!("{:?}", ex);
}

#[test]
fn binop_test() {
    exp_ok("(-2) ^ 2");
    exp_ok("-2 ^ 2");
}

/// A Lua file of the kind the parser is meant for.
const SAMPLE: &str = r#"-- A small module.
local M = {}

function M.new(name, value)
    local self = setmetatable({}, M)
    self.name = name
    self.value = value or 0
    return self
end

function M:describe()
    if self.value > 10 then
        return self.name .. " is large"
    elseif self.value == 0 then
        return self.name .. " is empty"
    else
        return self.name .. " is small"
    end
end

for i = 1, 10, 2 do
    print(i * 2)
end

for k, v in pairs(M) do
    print(k, v)
end

while false do
    break
end

repeat
    local x = #M
until true

do
    goto done
    ::done::
end

local s = [[a long
string]] .. 'and a short one' .. "\n"
local t = { 1, 2, 3; x = 0x1F, [4] = 1.5e3 }

return M
"#;

fn report(name: &str, file: &str, idx: usize, stage: &str, message: &str) -> String {
    let line_start = file[..idx].rfind('\n').map_or(0, |i| i + 1);
    let line_end = file[idx..].find('\n').unwrap_or(file.len() - idx) + idx;
    let lines = file[..line_start].chars().filter(|c| *c == '\n').count();
    format!(
        "{} error at {}:{}:{}: {}\n{}\n{}^",
        stage,
        name,
        lines + 1,
        idx - line_start,
        message,
        &file[line_start..line_end],
        " ".repeat(idx - line_start)
    )
}

#[test]
fn real_data() {
    let files: [[&str; 2]; 1] = [["sample.lua", SAMPLE]];
    for [name, file] in files {
        let mut stream = match TokenStream::parse(file) {
            Ok(v) => v,
            Err(e) => panic!("{}", report(name, file, e.index, "tokenization", e.message)),
        };
        if let Err(e) = Chunk::parse(&mut stream) {
            panic!("{}", report(name, file, e.index, "parsing", e.message));
        }
    }
}
